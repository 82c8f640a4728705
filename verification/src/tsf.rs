//! Logic of the text service that runs inside applications: which keys it takes and what it does
//! with the server's answers, the voice shortcut, key latency metrics, and starting the server.
pub mod key_metrics;
pub mod voice_key;
pub mod voice_client;
pub mod key_forward;
pub mod key_route;
pub mod host;
pub mod launch;
