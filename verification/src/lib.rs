//! Decision logic of the Qingjian Windows input method: the voice coordinator and its worker link,
//! the polisher's hotwords, the status bar and candidate window bookkeeping, single-instance rules,
//! key routing and the voice shortcut in the text service, and the settings window's choices.
pub mod protocol;
pub mod voice;
pub mod dispatch;
pub mod text;
pub mod tsv;
pub mod paths;
pub mod tsf;
pub mod instance;
pub mod ui;
pub mod settings;
pub mod security;
