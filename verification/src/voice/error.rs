//! Failures between the server and the voice worker process.
use vstd::prelude::*;

verus! {

/// The server could not talk to the voice worker. Each variant carries the text of its cause.
#[derive(Debug)]
pub enum VoiceBackendError {
    /// An I/O failure on the worker's pipes.
    Io(String),
    /// A frame the protocol codec could not read or write.
    Protocol(String),
    /// The worker closed its end.
    Closed,
    /// The worker answered with an error.
    Rejected(String),
}

/// The message a user sees for `error`.
pub open spec fn backend_error_message(error: VoiceBackendError) -> Seq<char> {
    match error {
        VoiceBackendError::Io(cause) => "voice worker I/O: "@ + cause@,
        VoiceBackendError::Protocol(cause) => "voice worker protocol: "@ + cause@,
        VoiceBackendError::Closed => "voice worker closed"@,
        VoiceBackendError::Rejected(cause) => "voice worker rejected request: "@ + cause@,
    }
}

/// Whether a fresh worker may cure `error` (broken pipe, bad frame, closed end), as opposed to
/// an explicit refusal.
pub open spec fn backend_error_recoverable(error: VoiceBackendError) -> bool {
    !(error is Rejected)
}

impl VoiceBackendError {
    /// The message a user sees for this error.
    pub fn message(&self) -> (r: String)
        ensures
            r@ == backend_error_message(*self),
    {
        match self {
            VoiceBackendError::Io(cause) => String::from_str("voice worker I/O: ").concat(cause.as_str()),
            VoiceBackendError::Protocol(cause) => String::from_str("voice worker protocol: ").concat(
                cause.as_str(),
            ),
            VoiceBackendError::Closed => String::from_str("voice worker closed"),
            VoiceBackendError::Rejected(cause) => String::from_str(
                "voice worker rejected request: ",
            ).concat(cause.as_str()),
        }
    }
}

/// Whether restarting the worker may cure `error`.
pub fn recoverable(error: &VoiceBackendError) -> (r: bool)
    ensures
        r == backend_error_recoverable(*error),
{
    match error {
        VoiceBackendError::Io(_) | VoiceBackendError::Protocol(_) | VoiceBackendError::Closed => true,
        VoiceBackendError::Rejected(_) => false,
    }
}

} // verus!
