//! The narrow boundary between the voice coordinator and a worker.
use vstd::prelude::*;

use crate::protocol::WorkerSnapshot;
use crate::voice::error::VoiceBackendError;

verus! {

/// The small synchronous operations the coordinator needs; the worker process and test doubles
/// both implement it. Nothing is promised of what they return: the coordinator is verified for
/// every outcome.
pub trait VoiceBackend {
    fn start(&mut self, request: u64) -> Result<(), VoiceBackendError>;

    fn stop(&mut self, request: u64) -> Result<(), VoiceBackendError>;

    fn cancel(&mut self, request: u64) -> Result<(), VoiceBackendError>;

    fn snapshot(&mut self) -> Result<WorkerSnapshot, VoiceBackendError>;
}

} // verus!
