//! Voice input: the coordinator state machine, the worker process link and configuration, the
//! polisher's hotwords, and the errors between server and worker.
pub mod backend;
pub mod coordinator;
pub mod error;
pub mod hotwords;
pub mod laws;
pub mod link;
pub mod worker;
