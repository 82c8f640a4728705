//! Protocol dispatch: the status bar, the candidate window and the voice panel that shares it.
pub mod laws;
pub mod model;
pub mod reload;
pub mod router;
pub mod sink;
