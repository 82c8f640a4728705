//! Both ends of the pipe to the voice worker process: how the server side turns the worker's
//! replies into results and when it restarts the process, and how the worker answers requests.
use vstd::prelude::*;

use crate::protocol::WorkerSnapshot;
use crate::voice::error::VoiceBackendError;
use crate::voice::worker::{failure_snapshot, loading_snapshot, WorkerConfig};

verus! {

/// A request from the server to the worker.
#[derive(Debug)]
pub enum WorkerRequest {
    Configure(Box<WorkerConfig>),
    Start { request: u64 },
    Stop { request: u64 },
    Cancel { request: u64 },
    Snapshot,
    Shutdown,
}

/// The worker's reply to a request.
#[derive(Debug)]
pub enum WorkerResponse {
    /// The request was carried out.
    Accepted,
    Snapshot(WorkerSnapshot),
    Error(String),
}

/// The result of an exchange for the reply read from the worker (`None`: it closed its end).
pub open spec fn reply_outcome(reply: Option<WorkerResponse>) -> Result<
    WorkerResponse,
    VoiceBackendError,
> {
    match reply {
        None => Err(VoiceBackendError::Closed),
        Some(WorkerResponse::Error(message)) => Err(VoiceBackendError::Rejected(message)),
        Some(response) => Ok(response),
    }
}

/// The result of an exchange: an error reply is a refusal, a closed pipe is `Closed`.
pub fn reply_result(reply: Option<WorkerResponse>) -> (r: Result<WorkerResponse, VoiceBackendError>)
    ensures
        r == reply_outcome(reply),
{
    match reply {
        None => Err(VoiceBackendError::Closed),
        Some(WorkerResponse::Error(message)) => Err(VoiceBackendError::Rejected(message)),
        Some(response) => Ok(response),
    }
}

/// The result of a command (start, stop, cancel) from the result of its exchange: only `Ok`
/// acknowledges it; a snapshot is an unexpected answer. An exchange never yields an error reply.
pub fn command_result(result: Result<WorkerResponse, VoiceBackendError>) -> (r: Result<
    (),
    VoiceBackendError,
>)
    requires
        !(result matches Ok(WorkerResponse::Error(_))),
    ensures
        result matches Ok(WorkerResponse::Accepted) ==> r is Ok,
        result matches Ok(WorkerResponse::Snapshot(_)) ==> (r matches Err(
            VoiceBackendError::Rejected(m),
        ) && m@ == "unexpected snapshot response"@),
        result matches Err(e) ==> r == Err::<(), VoiceBackendError>(e),
{
    match result {
        Ok(WorkerResponse::Accepted) => Ok(()),
        Ok(WorkerResponse::Snapshot(_)) => Err(
            VoiceBackendError::Rejected(String::from_str("unexpected snapshot response")),
        ),
        Ok(WorkerResponse::Error(_)) => Err(VoiceBackendError::Closed),
        Err(e) => Err(e),
    }
}

/// What the worker process's exit status said when asked.
#[derive(Clone, Copy, Debug, PartialEq, Eq, Structural)]
pub enum ChildStatus {
    Running,
    Exited,
    /// The status could not be read.
    Unknown,
}

/// What to do with a request to the worker.
#[derive(Clone, Copy, Debug, PartialEq, Eq, Structural)]
pub enum LinkStep {
    /// Send it.
    Send,
    /// Drop it: the pipe is broken and only a start brings up a new process.
    Skip,
    /// Start a fresh worker process first.
    Restart,
    /// Report the worker as failed.
    Fail,
}

/// What to do with a request: a start brings up a fresh process when the pipe is broken or the
/// process has exited (and fails when its status cannot be read); other requests are dropped
/// while the pipe is broken.
pub open spec fn request_step_of(broken: bool, start: bool, child: ChildStatus) -> LinkStep {
    if start {
        if broken || child == ChildStatus::Exited {
            LinkStep::Restart
        } else if child == ChildStatus::Unknown {
            LinkStep::Fail
        } else {
            LinkStep::Send
        }
    } else if broken {
        LinkStep::Skip
    } else {
        LinkStep::Send
    }
}

/// The message published when the worker process is gone.
pub open spec fn worker_gone_message() -> Seq<char> {
    "语音工作进程已退出，请重试"@
}

/// The server's side of the pipe to one worker process.
#[derive(Debug)]
pub struct WorkerLink {
    /// The pipe broke: nothing is sent until a start brings up a new process.
    pub broken: bool,
}

impl WorkerLink {
    /// A link to a freshly configured process.
    pub fn new() -> (r: Self)
        ensures
            !r.broken,
    {
        WorkerLink { broken: false }
    }

    /// What to do with a request (`start`: it is a start); `child` is consulted only for a start
    /// over a working pipe.
    pub fn request_step(&self, start: bool, child: ChildStatus) -> (r: LinkStep)
        ensures
            r == request_step_of(self.broken, start, child),
    {
        if start {
            if self.broken || child == ChildStatus::Exited {
                LinkStep::Restart
            } else if child == ChildStatus::Unknown {
                LinkStep::Fail
            } else {
                LinkStep::Send
            }
        } else if self.broken {
            LinkStep::Skip
        } else {
            LinkStep::Send
        }
    }

    /// A fresh process was started: the pipe works again, and the snapshot to publish says it is
    /// loading (clearing the last failure).
    pub fn restarted(&mut self) -> (r: WorkerSnapshot)
        ensures
            !final(self).broken,
            r.state == crate::protocol::VoiceState::Loading,
            r.request is None && r.level == 0 && r.partial is None && r.text is None && r.message is None,
    {
        self.broken = false;
        loading_snapshot()
    }

    /// Talking to the worker failed: the pipe is broken until the next start, and the snapshot to
    /// publish is a failure saying that the worker is gone.
    pub fn failed(&mut self) -> (r: WorkerSnapshot)
        ensures
            final(self).broken,
            r.state == crate::protocol::VoiceState::Failed,
            r.request is None && r.level == 0 && r.partial is None && r.text is None,
            r.message matches Some(m) && m@ == worker_gone_message(),
    {
        self.broken = true;
        failure_snapshot("语音工作进程已退出，请重试")
    }

    /// Whether a snapshot is asked for (not over a broken pipe); also whether a shutdown request is
    /// sent before waiting for the process to exit.
    pub fn can_send(&self) -> (r: bool)
        ensures
            r == !self.broken,
    {
        !self.broken
    }

    /// The snapshot to publish for the result of asking for one: the worker's own, or a failure
    /// (for a failed exchange or an answer that is not a snapshot).
    pub fn snapshot_reply(&mut self, result: Result<WorkerResponse, VoiceBackendError>) -> (r:
        WorkerSnapshot)
        ensures
            result matches Ok(WorkerResponse::Snapshot(v)) ==> r == v && final(self).broken
                == old(self).broken,
            !(result matches Ok(WorkerResponse::Snapshot(_))) ==> final(self).broken && r.state
                == crate::protocol::VoiceState::Failed && (r.message matches Some(m) && m@
                == worker_gone_message()),
    {
        match result {
            Ok(WorkerResponse::Snapshot(value)) => value,
            _ => self.failed(),
        }
    }
}

/// What the worker process does with a request.
#[derive(Debug)]
pub enum ServeStep {
    /// Build the recognizer from this configuration, then answer `Ok`.
    Configure(Box<WorkerConfig>),
    /// Hand the request to the recognizer and answer with what it says.
    Forward(WorkerRequest),
    /// Answer this without doing anything.
    Answer(WorkerResponse),
    /// Stop serving.
    Exit,
}

/// What the worker process does with `request`, `configured` telling whether it has a
/// recognizer: a configuration is taken at any time, a shutdown ends the loop, and the other
/// requests are refused until a configuration arrived.
pub fn serve_step(configured: bool, request: WorkerRequest) -> (r: ServeStep)
    ensures
        match request {
            WorkerRequest::Configure(config) => r == ServeStep::Configure(config),
            WorkerRequest::Shutdown => r is Exit,
            _ => if configured {
                r == ServeStep::Forward(request)
            } else {
                r matches ServeStep::Answer(WorkerResponse::Error(m)) && m@
                    == "worker is not configured"@
            },
        },
{
    match request {
        WorkerRequest::Configure(config) => ServeStep::Configure(config),
        WorkerRequest::Shutdown => ServeStep::Exit,
        other => if configured {
            ServeStep::Forward(other)
        } else {
            ServeStep::Answer(WorkerResponse::Error(String::from_str("worker is not configured")))
        },
    }
}

/// The worker's answer to a command the recognizer ran: `Ok`, or the error's text.
pub fn command_response(result: Result<(), String>) -> (r: WorkerResponse)
    ensures
        match result {
            Ok(()) => r is Accepted,
            Err(message) => r == WorkerResponse::Error(message),
        },
{
    match result {
        Ok(()) => WorkerResponse::Accepted,
        Err(message) => WorkerResponse::Error(message),
    }
}

/// A start over a broken pipe always brings up a fresh process; other requests over a broken
/// pipe are never sent.
pub proof fn lemma_broken_link_waits_for_start(start: bool, child: ChildStatus)
    ensures
        start ==> request_step_of(true, start, child) == LinkStep::Restart,
        !start ==> request_step_of(true, start, child) == LinkStep::Skip,
{
}

} // verus!
