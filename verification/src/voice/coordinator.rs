//! The one voice-input coordinator of the server: it ties the key session, the worker's state
//! and reliable delivery of the final transcript into a single state machine.
//!
//! Time is a millisecond clock that the caller passes in (`now`); only its differences matter.
use vstd::prelude::*;

use crate::protocol::{
    clone_opt_delivery, clone_opt_string, opt_delivery_view, opt_view, state_is_active,
    voice_state_active, DeliveryView, SessionId, SnapshotView, SyncView, VoiceAction, VoiceDelivery,
    VoiceState, VoiceSync, VoiceTrigger, WorkerSnapshot,
};
use crate::voice::backend::VoiceBackend;
use crate::voice::error::{backend_error_message, VoiceBackendError};

verus! {

/// A short local utterance is recognised within seconds; past this limit the worker or the
/// native inference is stuck and the shortcut must work again.
pub const RECOGNITION_TIMEOUT_MS: u64 = 45_000;

/// A request the coordinator made of its worker backend.
#[derive(Clone, Copy, Debug, PartialEq, Eq, Structural)]
pub enum BackendCall {
    Start(u64),
    Stop(u64),
    Cancel(u64),
    Snapshot,
}

/// The mathematical state of a coordinator; the backend itself is abstracted to whether there is
/// one, to the requests made of it so far (`calls`, oldest first), and to what it answered to each
/// start and stop (`answers`, oldest first, a message in place of an error).
pub struct VoiceModel {
    pub enabled: bool,
    pub trigger: VoiceTrigger,
    pub has_backend: bool,
    pub session: Option<SessionId>,
    pub request: Option<u64>,
    pub next_request: u64,
    pub state: VoiceState,
    pub state_since: u64,
    pub delivery: Option<DeliveryView>,
    pub level: u16,
    pub partial: Option<Seq<char>>,
    pub message: Option<Seq<char>>,
    pub calls: Seq<BackendCall>,
    pub answers: Seq<Result<(), Seq<char>>>,
}

/// Moving to `state`; the clock of the phase restarts only when the phase really changes.
pub open spec fn with_state(m: VoiceModel, state: VoiceState, now: u64) -> VoiceModel {
    if m.state == state {
        m
    } else {
        VoiceModel { state, state_since: now, ..m }
    }
}

/// Where a coordinator rests when nothing is going on.
pub open spec fn resting_state(enabled: bool) -> VoiceState {
    if enabled {
        VoiceState::Idle
    } else {
        VoiceState::Disabled
    }
}

/// The request id that follows `n`, skipping 0 when it wraps.
pub open spec fn request_after(n: u64) -> u64 {
    if n == u64::MAX {
        1
    } else {
        (n + 1) as u64
    }
}

/// The requests made after asking the backend, if there is one, to cancel `request`.
pub open spec fn cancel_calls(m: VoiceModel, request: Option<u64>) -> Seq<BackendCall> {
    if m.has_backend && request is Some {
        m.calls.push(BackendCall::Cancel(request.unwrap()))
    } else {
        m.calls
    }
}

/// Dropping the current recording or result; the backend is asked to cancel the current request.
pub open spec fn cancelled(m: VoiceModel, now: u64) -> VoiceModel {
    let s = with_state(m, resting_state(m.enabled), now);
    VoiceModel {
        session: None,
        request: None,
        delivery: None,
        level: 0,
        partial: None,
        message: None,
        calls: cancel_calls(m, m.request),
        ..s
    }
}

/// Turning voice input off and letting go of the backend.
pub open spec fn disabled(m: VoiceModel, now: u64) -> VoiceModel {
    let c = cancelled(m, now);
    let s = with_state(
        VoiceModel { enabled: false, trigger: VoiceTrigger::Off, has_backend: false, ..c },
        VoiceState::Disabled,
        now,
    );
    VoiceModel { level: 0, partial: None, message: None, ..s }
}

/// Installing a backend for `trigger`; the worker starts by loading its model.
pub open spec fn configured(m: VoiceModel, trigger: VoiceTrigger, now: u64) -> VoiceModel {
    let enabled = trigger != VoiceTrigger::Off;
    let s = with_state(
        VoiceModel { enabled, trigger, has_backend: true, ..m },
        if enabled {
            VoiceState::Loading
        } else {
            VoiceState::Disabled
        },
        now,
    );
    VoiceModel { level: 0, partial: None, message: None, ..s }
}

/// Voice input is wanted for `trigger` but no backend could be started.
pub open spec fn configured_failure(
    m: VoiceModel,
    trigger: VoiceTrigger,
    message: Seq<char>,
    now: u64,
) -> VoiceModel {
    let enabled = trigger != VoiceTrigger::Off;
    let s = with_state(
        VoiceModel { enabled, trigger, has_backend: false, ..m },
        if enabled {
            VoiceState::Failed
        } else {
            VoiceState::Disabled
        },
        now,
    );
    VoiceModel {
        level: 0,
        partial: None,
        message: if enabled {
            Some(message)
        } else {
            None
        },
        ..s
    }
}

/// The worker failed with `message`.
pub open spec fn failed(m: VoiceModel, message: Seq<char>, now: u64) -> VoiceModel {
    let s = with_state(m, VoiceState::Failed, now);
    VoiceModel { level: 0, partial: None, message: Some(message), delivery: None, ..s }
}

/// The view of what a backend answered to a start or a stop.
pub open spec fn call_outcome_view(outcome: Result<(), VoiceBackendError>) -> Result<(), Seq<char>> {
    match outcome {
        Ok(_) => Ok(()),
        Err(error) => Err(backend_error_message(error)),
    }
}

/// After the backend answered a start: recording, or failed with the error's message.
pub open spec fn start_answered(m: VoiceModel, outcome: Result<(), Seq<char>>, now: u64) -> VoiceModel {
    match outcome {
        Ok(_) => with_state(m, VoiceState::Recording, now),
        Err(message) => failed(m, message, now),
    }
}

/// After the backend answered a stop: recognizing, or failed with the error's message.
pub open spec fn stop_answered(m: VoiceModel, outcome: Result<(), Seq<char>>, now: u64) -> VoiceModel {
    match outcome {
        Ok(_) => with_state(m, VoiceState::Recognizing, now),
        Err(message) => failed(m, message, now),
    }
}

/// A start request from `session`; `outcome` is what the backend answered to it (a message on error).
/// A new recording first cancels the current request, then asks the backend to start the next
/// request id.
pub open spec fn started(
    m: VoiceModel,
    session: SessionId,
    now: u64,
    outcome: Result<(), Seq<char>>,
) -> VoiceModel {
    if !m.has_backend {
        VoiceModel { session: Some(session), state: VoiceState::Failed, ..m }
    } else if m.session == Some(session) && (m.state == VoiceState::Recording || m.state
        == VoiceState::Recognizing) {
        m
    } else {
        let c = cancelled(m, now);
        let r = VoiceModel {
            next_request: request_after(c.next_request),
            session: Some(session),
            request: Some(c.next_request),
            delivery: None,
            level: 0,
            partial: None,
            message: None,
            calls: c.calls.push(BackendCall::Start(c.next_request)),
            answers: c.answers.push(outcome),
            ..c
        };
        start_answered(r, outcome, now)
    }
}

/// A stop request from `session`; `outcome` is what the backend answered to it. Only the owner of
/// a recording stops it, by asking the backend to stop the current request.
pub open spec fn stopped(
    m: VoiceModel,
    session: SessionId,
    now: u64,
    outcome: Result<(), Seq<char>>,
) -> VoiceModel {
    if m.session != Some(session) || m.state != VoiceState::Recording || m.request is None
        || !m.has_backend {
        m
    } else {
        stop_answered(
            VoiceModel {
                calls: m.calls.push(BackendCall::Stop(m.request.unwrap())),
                answers: m.answers.push(outcome),
                ..m
            },
            outcome,
            now,
        )
    }
}

/// A cancel from `session`: only the session that owns the recording can drop it.
pub open spec fn cancelled_for(m: VoiceModel, session: SessionId, now: u64) -> VoiceModel {
    if m.session == Some(session) {
        cancelled(m, now)
    } else {
        m
    }
}

/// A shortcut action from `session`; ignored while voice input is off.
pub open spec fn handled(
    m: VoiceModel,
    session: SessionId,
    action: VoiceAction,
    now: u64,
    outcome: Result<(), Seq<char>>,
) -> VoiceModel {
    if !m.enabled {
        m
    } else {
        match action {
            VoiceAction::Start => started(m, session, now, outcome),
            VoiceAction::Stop => stopped(m, session, now, outcome),
            VoiceAction::Cancel => cancelled_for(m, session, now),
        }
    }
}

/// The owner confirms that the result of `request` is in its document.
pub open spec fn acked(m: VoiceModel, session: SessionId, request: u64, now: u64) -> VoiceModel {
    if m.session == Some(session) && m.request == Some(request) {
        cancelled(m, now)
    } else {
        m
    }
}

/// Recognition has run past its limit.
pub open spec fn recognition_expired(m: VoiceModel, now: u64) -> bool {
    m.state == VoiceState::Recognizing && now - m.state_since >= RECOGNITION_TIMEOUT_MS
}

/// The message shown when recognition timed out.
pub open spec fn timeout_message() -> Seq<char> {
    "识别超时，请重试"@
}

/// Giving up on a stuck recognition so that the shortcut works again; the backend is asked to
/// cancel the request.
pub open spec fn timed_out(m: VoiceModel, now: u64) -> VoiceModel {
    let s = with_state(
        VoiceModel { request: None, calls: cancel_calls(m, m.request), ..m },
        VoiceState::Failed,
        now,
    );
    VoiceModel {
        level: 0,
        partial: None,
        delivery: None,
        message: Some(timeout_message()),
        ..s
    }
}

/// Whether a snapshot is one the coordinator must not act on: the worker has not yet taken
/// the current request (it may still be loading its model), it still reports recording after a
/// stop was sent, or it speaks of another request.
pub open spec fn snapshot_ignored(m: VoiceModel, snap: SnapshotView) -> bool {
    (m.request is Some && (snap.request is None || (m.state == VoiceState::Recognizing
        && snap.state == VoiceState::Recording))) || (snap.request is Some && snap.request
        != m.request)
}

/// The delivery a snapshot carries for the current request.
pub open spec fn snapshot_delivery(m: VoiceModel, snap: SnapshotView) -> Option<DeliveryView> {
    match (snap.request, snap.text) {
        (Some(request), Some(text)) => if m.request == Some(request) {
            Some(DeliveryView { request, text })
        } else {
            None
        },
        _ => None,
    }
}

/// Taking over what the worker reports.
pub open spec fn observed(m: VoiceModel, now: u64, snap: SnapshotView) -> VoiceModel {
    if snapshot_ignored(m, snap) {
        m
    } else {
        let s = with_state(m, snap.state, now);
        let u = VoiceModel {
            level: snap.level,
            partial: snap.partial,
            message: snap.message,
            delivery: snapshot_delivery(m, snap),
            ..s
        };
        if u.state == VoiceState::Idle && u.delivery is None {
            VoiceModel { session: None, request: None, ..u }
        } else {
            u
        }
    }
}

/// After the backend answered a snapshot request: an error becomes the failure message, a
/// snapshot is taken over unless it is stale.
pub open spec fn poll_answered(
    m: VoiceModel,
    now: u64,
    outcome: Result<SnapshotView, Seq<char>>,
) -> VoiceModel {
    match outcome {
        Err(message) => failed(m, message, now),
        Ok(snap) => observed(m, now, snap),
    }
}

/// One poll; `outcome` is the snapshot the backend gave or the message of its error. The backend
/// is asked for a snapshot only when voice input is on, recognition has not timed out and there
/// is a backend.
pub open spec fn polled(
    m: VoiceModel,
    now: u64,
    outcome: Result<SnapshotView, Seq<char>>,
) -> VoiceModel {
    if !m.enabled {
        m
    } else if recognition_expired(m, now) {
        timed_out(m, now)
    } else if !m.has_backend {
        m
    } else {
        poll_answered(VoiceModel { calls: m.calls.push(BackendCall::Snapshot), ..m }, now, outcome)
    }
}

/// The view of what a backend answered to a snapshot request.
pub open spec fn poll_outcome_view(
    outcome: Result<WorkerSnapshot, VoiceBackendError>,
) -> Result<SnapshotView, Seq<char>> {
    match outcome {
        Ok(snapshot) => Ok(snapshot@),
        Err(error) => Err(backend_error_message(error)),
    }
}

/// What `session` is told: everyone sees the phase, only the owner sees its text.
pub open spec fn sync_view(m: VoiceModel, session: SessionId) -> SyncView {
    let owner = m.session == Some(session);
    SyncView {
        enabled: m.enabled,
        trigger: m.trigger,
        state: m.state,
        level: m.level,
        partial: if owner {
            m.partial
        } else {
            None
        },
        delivery: if owner {
            m.delivery
        } else {
            None
        },
        message: m.message,
    }
}

/// The request of the latest start the backend was asked for, if any.
pub open spec fn last_start(calls: Seq<BackendCall>) -> Option<u64>
    decreases calls.len(),
{
    if calls.len() == 0 {
        None
    } else {
        match calls.last() {
            BackendCall::Start(request) => Some(request),
            _ => last_start(calls.drop_last()),
        }
    }
}

/// Logging one more call: a start becomes the latest, any other call leaves the latest start as it was.
pub proof fn lemma_last_start_push(calls: Seq<BackendCall>, call: BackendCall)
    ensures
        last_start(calls.push(call)) == match call {
            BackendCall::Start(request) => Some(request),
            _ => last_start(calls),
        },
{
    assert(calls.push(call).drop_last() =~= calls);
}

/// A shortcut action keeps the invariant, whatever the backend answered.
pub proof fn lemma_handled_keeps_inv(
    m: VoiceModel,
    session: SessionId,
    action: VoiceAction,
    now: u64,
    outcome: Result<(), Seq<char>>,
)
    requires
        voice_inv(m),
    ensures
        voice_inv(handled(m, session, action, now, outcome)),
{
    let c = cancelled(m, now);
    lemma_last_start_push(c.calls, BackendCall::Start(c.next_request));
    if let Some(current) = m.request {
        lemma_last_start_push(m.calls, BackendCall::Stop(current));
    }
}

/// A poll keeps the invariant, whatever the backend answered.
pub proof fn lemma_polled_keeps_inv(m: VoiceModel, now: u64, outcome: Result<SnapshotView, Seq<char>>)
    requires
        voice_inv(m),
    ensures
        voice_inv(polled(m, now, outcome)),
{
    lemma_last_start_push(m.calls, BackendCall::Snapshot);
}

/// What every reachable coordinator state satisfies.
pub open spec fn voice_inv(m: VoiceModel) -> bool {
    &&& !m.enabled ==> m.state == VoiceState::Disabled
    &&& m.request is Some ==> m.session is Some
    &&& m.request is Some ==> last_start(m.calls) == m.request
    &&& m.delivery is Some ==> m.request == Some(m.delivery.unwrap().request)
    &&& m.next_request >= 1
}

/// The server's voice-input coordinator, generic over its worker backend.
pub struct VoiceCoordinator<B> {
    enabled: bool,
    trigger: VoiceTrigger,
    backend: Option<B>,
    session: Option<SessionId>,
    request: Option<u64>,
    next_request: u64,
    state: VoiceState,
    state_since: u64,
    delivery: Option<VoiceDelivery>,
    level: u16,
    partial: Option<String>,
    message: Option<String>,
    calls: Ghost<Seq<BackendCall>>,
    answers: Ghost<Seq<Result<(), Seq<char>>>>,
}

impl<B: VoiceBackend> View for VoiceCoordinator<B> {
    type V = VoiceModel;

    closed spec fn view(&self) -> VoiceModel {
        VoiceModel {
            enabled: self.enabled,
            trigger: self.trigger,
            has_backend: self.backend is Some,
            session: self.session,
            request: self.request,
            next_request: self.next_request,
            state: self.state,
            state_since: self.state_since,
            delivery: opt_delivery_view(self.delivery),
            level: self.level,
            partial: opt_view(self.partial),
            message: opt_view(self.message),
            calls: self.calls@,
            answers: self.answers@,
        }
    }
}

impl<B: VoiceBackend> VoiceCoordinator<B> {
    /// A coordinator with voice input off.
    pub fn new(now: u64) -> (r: Self)
        ensures
            r@ == (VoiceModel {
                enabled: false,
                trigger: VoiceTrigger::Off,
                has_backend: false,
                session: None,
                request: None,
                next_request: 1,
                state: VoiceState::Disabled,
                state_since: now,
                delivery: None,
                level: 0,
                partial: None,
                message: None,
                calls: Seq::empty(),
                answers: Seq::empty(),
            }),
            voice_inv(r@),
    {
        VoiceCoordinator {
            enabled: false,
            trigger: VoiceTrigger::Off,
            backend: None,
            session: None,
            request: None,
            next_request: 1,
            state: VoiceState::Disabled,
            state_since: now,
            delivery: None,
            level: 0,
            partial: None,
            message: None,
            calls: Ghost(Seq::empty()),
            answers: Ghost(Seq::empty()),
        }
    }

    /// Whether `session` owns the current recording or result.
    pub fn owns(&self, session: SessionId) -> (r: bool)
        ensures
            r == (self@.session == Some(session)),
    {
        match self.session {
            Some(owner) => owner.0 == session.0,
            None => false,
        }
    }

    /// Whether the voice panel must stay visible; the router uses it to ignore late
    /// hide requests from the ordinary candidate life cycle.
    pub fn is_active(&self) -> (r: bool)
        ensures
            r == state_is_active(self@.state),
    {
        voice_state_active(self.state)
    }

    /// The current phase.
    pub fn state(&self) -> (r: VoiceState)
        ensures
            r == self@.state,
    {
        self.state
    }

    fn set_state(&mut self, state: VoiceState, now: u64)
        ensures
            final(self)@ == with_state(old(self)@, state, now),
    {
        if self.state != state {
            self.state = state;
            self.state_since = now;
        }
    }

    /// Asks the backend, if there is one, to cancel `request`; its answer is not needed.
    fn backend_cancel(&mut self, request: u64)
        ensures
            final(self)@ == (VoiceModel {
                calls: cancel_calls(old(self)@, Some(request)),
                ..old(self)@
            }),
    {
        match &mut self.backend {
            Some(backend) => {
                let _ = backend.cancel(request);
                self.calls = Ghost(self.calls@.push(BackendCall::Cancel(request)));
            },
            None => {},
        }
    }

    /// Asks the backend, if there is one, to start `request`, and gives its answer.
    fn backend_start(&mut self, request: u64) -> (r: Option<Result<(), VoiceBackendError>>)
        ensures
            r is Some == old(self)@.has_backend,
            r matches Some(answer) ==> final(self)@ == (VoiceModel {
                calls: old(self)@.calls.push(BackendCall::Start(request)),
                answers: old(self)@.answers.push(call_outcome_view(answer)),
                ..old(self)@
            }),
            !old(self)@.has_backend ==> final(self)@ == old(self)@,
    {
        match &mut self.backend {
            Some(backend) => {
                let answer = backend.start(request);
                self.calls = Ghost(self.calls@.push(BackendCall::Start(request)));
                self.answers = Ghost(self.answers@.push(call_outcome_view(answer)));
                Some(answer)
            },
            None => None,
        }
    }

    /// Asks the backend, if there is one, to stop `request`, and gives its answer.
    fn backend_stop(&mut self, request: u64) -> (r: Option<Result<(), VoiceBackendError>>)
        ensures
            r is Some == old(self)@.has_backend,
            r matches Some(answer) ==> final(self)@ == (VoiceModel {
                calls: old(self)@.calls.push(BackendCall::Stop(request)),
                answers: old(self)@.answers.push(call_outcome_view(answer)),
                ..old(self)@
            }),
            !old(self)@.has_backend ==> final(self)@ == old(self)@,
    {
        match &mut self.backend {
            Some(backend) => {
                let answer = backend.stop(request);
                self.calls = Ghost(self.calls@.push(BackendCall::Stop(request)));
                self.answers = Ghost(self.answers@.push(call_outcome_view(answer)));
                Some(answer)
            },
            None => None,
        }
    }

    /// Asks the backend, if there is one, for a snapshot, and gives its answer.
    fn backend_snapshot(&mut self) -> (r: Option<Result<WorkerSnapshot, VoiceBackendError>>)
        ensures
            r is Some == old(self)@.has_backend,
            old(self)@.has_backend ==> final(self)@ == (VoiceModel {
                calls: old(self)@.calls.push(BackendCall::Snapshot),
                ..old(self)@
            }),
            !old(self)@.has_backend ==> final(self)@ == old(self)@,
    {
        match &mut self.backend {
            Some(backend) => {
                let answer = backend.snapshot();
                self.calls = Ghost(self.calls@.push(BackendCall::Snapshot));
                Some(answer)
            },
            None => None,
        }
    }

    /// Turns voice input off and drops the backend.
    pub fn disable(&mut self, now: u64)
        ensures
            voice_inv(old(self)@) ==> voice_inv(final(self)@),
            final(self)@ == disabled(old(self)@, now),
    {
        self.cancel(now);
        self.enabled = false;
        self.trigger = VoiceTrigger::Off;
        self.backend = None;
        self.set_state(VoiceState::Disabled, now);
        self.level = 0;
        self.partial = None;
        self.message = None;
    }

    /// Installs `backend` for `trigger`.
    pub fn configure(&mut self, trigger: VoiceTrigger, backend: B, now: u64)
        ensures
            voice_inv(old(self)@) ==> voice_inv(final(self)@),
            final(self)@ == configured(old(self)@, trigger, now),
    {
        self.enabled = trigger != VoiceTrigger::Off;
        self.trigger = trigger;
        self.backend = Some(backend);
        let target = if self.enabled {
            VoiceState::Loading
        } else {
            VoiceState::Disabled
        };
        self.set_state(target, now);
        self.level = 0;
        self.partial = None;
        self.message = None;
    }

    /// Voice input is wanted for `trigger` but its worker could not be started.
    pub fn configure_failure(&mut self, trigger: VoiceTrigger, message: String, now: u64)
        ensures
            voice_inv(old(self)@) ==> voice_inv(final(self)@),
            final(self)@ == configured_failure(old(self)@, trigger, message@, now),
    {
        self.enabled = trigger != VoiceTrigger::Off;
        self.trigger = trigger;
        self.backend = None;
        let target = if self.enabled {
            VoiceState::Failed
        } else {
            VoiceState::Disabled
        };
        self.set_state(target, now);
        self.level = 0;
        self.partial = None;
        self.message = if self.enabled {
            Some(message)
        } else {
            None
        };
    }

    /// A shortcut action from `session`. Where the backend was asked to start or stop, its answer is
    /// the last of `answers`, and the new state is the one that answer leads to.
    pub fn handle(&mut self, session: SessionId, action: VoiceAction, now: u64)
        ensures
            voice_inv(old(self)@) ==> voice_inv(final(self)@),
            exists|o: Result<(), Seq<char>>| #[trigger]
                handled(old(self)@, session, action, now, o) == final(self)@,
            final(self)@.calls == handled(old(self)@, session, action, now, Ok(())).calls,
            final(self)@.answers.len() == old(self)@.answers.len() ==> final(self)@ == handled(
                old(self)@,
                session,
                action,
                now,
                Ok(()),
            ),
            final(self)@.answers.len() != old(self)@.answers.len() ==> final(self)@ == handled(
                old(self)@,
                session,
                action,
                now,
                final(self)@.answers.last(),
            ),
    {
        if !self.enabled {
            assert(handled(old(self)@, session, action, now, Ok(())) == self@);
            return;
        }
        match action {
            VoiceAction::Start => {
                self.start(session, now);
                let ghost o = choose|o: Result<(), Seq<char>>|
                    #[trigger] started(old(self)@, session, now, o) == self@;
                assert(handled(old(self)@, session, action, now, o) == self@);
                proof {
                    if voice_inv(old(self)@) {
                        lemma_handled_keeps_inv(old(self)@, session, action, now, o);
                    }
                }
            },
            VoiceAction::Stop => {
                self.stop(session, now);
                let ghost o = choose|o: Result<(), Seq<char>>|
                    #[trigger] stopped(old(self)@, session, now, o) == self@;
                assert(handled(old(self)@, session, action, now, o) == self@);
                proof {
                    if voice_inv(old(self)@) {
                        lemma_handled_keeps_inv(old(self)@, session, action, now, o);
                    }
                }
            },
            VoiceAction::Cancel => {
                self.cancel_for(session, now);
                assert(handled(old(self)@, session, action, now, Ok(())) == self@);
            },
        }
    }

    /// Drops the recording if `session` owns it.
    pub fn cancel_for(&mut self, session: SessionId, now: u64)
        ensures
            voice_inv(old(self)@) ==> voice_inv(final(self)@),
            final(self)@ == cancelled_for(old(self)@, session, now),
    {
        if self.owns(session) {
            self.cancel(now);
        }
    }

    /// Drops the current recording or result, whoever owns it.
    pub fn cancel(&mut self, now: u64)
        ensures
            voice_inv(old(self)@) ==> voice_inv(final(self)@),
            final(self)@ == cancelled(old(self)@, now),
    {
        if let Some(request) = self.request {
            self.backend_cancel(request);
        }
        self.session = None;
        self.request = None;
        self.delivery = None;
        let target = if self.enabled {
            VoiceState::Idle
        } else {
            VoiceState::Disabled
        };
        self.set_state(target, now);
        self.level = 0;
        self.partial = None;
        self.message = None;
    }

    /// `session` confirms that the result of `request` is in its document.
    pub fn ack(&mut self, session: SessionId, request: u64, now: u64)
        ensures
            voice_inv(old(self)@) ==> voice_inv(final(self)@),
            final(self)@ == acked(old(self)@, session, request, now),
    {
        let current = match self.request {
            Some(current) => current == request,
            None => false,
        };
        if self.owns(session) && current {
            self.cancel(now);
        }
    }

    /// Polls the worker and tells `session` where voice input stands. A delivery it hands out is
    /// for the current request, the latest one the backend was asked to start.
    pub fn sync(&mut self, session: SessionId, now: u64) -> (r: VoiceSync)
        ensures
            voice_inv(old(self)@) ==> voice_inv(final(self)@),
            exists|o: Result<SnapshotView, Seq<char>>| #[trigger]
                polled(old(self)@, now, o) == final(self)@,
            final(self)@.calls == polled(old(self)@, now, Err(Seq::empty())).calls,
            r@ == sync_view(final(self)@, session),
            voice_inv(old(self)@) ==> (r@.delivery matches Some(d) ==> final(self)@.request == Some(
                d.request,
            ) && last_start(final(self)@.calls) == Some(d.request)),
    {
        self.poll_backend(now);
        let owner = self.owns(session);
        VoiceSync {
            enabled: self.enabled,
            trigger: self.trigger,
            state: self.state,
            level: self.level,
            partial: if owner {
                clone_opt_string(&self.partial)
            } else {
                None
            },
            delivery: if owner {
                clone_opt_delivery(&self.delivery)
            } else {
                None
            },
            message: clone_opt_string(&self.message),
        }
    }

    fn start(&mut self, session: SessionId, now: u64)
        ensures
            exists|o: Result<(), Seq<char>>| #[trigger]
                started(old(self)@, session, now, o) == final(self)@,
    {
        if self.backend.is_none() {
            self.session = Some(session);
            self.state = VoiceState::Failed;
            assert(started(old(self)@, session, now, Ok(())) == self@);
            return;
        }
        let busy = match self.state {
            VoiceState::Recording | VoiceState::Recognizing => true,
            _ => false,
        };
        if self.owns(session) && busy {
            assert(started(old(self)@, session, now, Ok(())) == self@);
            return;
        }
        self.cancel(now);
        let ghost c = self@;
        let request = self.next_request;
        self.next_request = if self.next_request == u64::MAX {
            1
        } else {
            self.next_request + 1
        };
        self.session = Some(session);
        self.request = Some(request);
        self.delivery = None;
        self.level = 0;
        self.partial = None;
        self.message = None;
        let answer = self.backend_start(request);
        match answer {
            Some(result) => {
                let ghost outcome = call_outcome_view(result);
                self.apply_start(result, now);
                assert(started(old(self)@, session, now, outcome) == self@);
            },
            None => {},
        }
    }

    fn stop(&mut self, session: SessionId, now: u64)
        ensures
            exists|o: Result<(), Seq<char>>| #[trigger]
                stopped(old(self)@, session, now, o) == final(self)@,
    {
        let recording = match self.state {
            VoiceState::Recording => true,
            _ => false,
        };
        if !self.owns(session) || !recording {
            assert(stopped(old(self)@, session, now, Ok(())) == self@);
            return;
        }
        let request = match self.request {
            Some(request) => request,
            None => {
                assert(stopped(old(self)@, session, now, Ok(())) == self@);
                return;
            },
        };
        let answer = self.backend_stop(request);
        match answer {
            Some(result) => {
                let ghost outcome = call_outcome_view(result);
                self.apply_stop(result, now);
                assert(stopped(old(self)@, session, now, outcome) == self@);
            },
            None => {
                assert(stopped(old(self)@, session, now, Ok(())) == self@);
            },
        }
    }

    /// Polls the backend once; the backend is asked for a snapshot only when voice input is on,
    /// recognition has not timed out and there is a backend.
    pub fn poll_backend(&mut self, now: u64)
        ensures
            voice_inv(old(self)@) ==> voice_inv(final(self)@),
            exists|o: Result<SnapshotView, Seq<char>>| #[trigger]
                polled(old(self)@, now, o) == final(self)@,
            final(self)@.calls == polled(old(self)@, now, Err(Seq::empty())).calls,
    {
        if !self.enabled {
            assert(polled(old(self)@, now, Err(Seq::empty())) == self@);
            return;
        }
        let recognizing = match self.state {
            VoiceState::Recognizing => true,
            _ => false,
        };
        if recognizing && now >= self.state_since && now - self.state_since
            >= RECOGNITION_TIMEOUT_MS {
            self.timeout_recognition(now);
            assert(polled(old(self)@, now, Err(Seq::empty())) == self@);
            proof {
                if voice_inv(old(self)@) {
                    lemma_polled_keeps_inv(old(self)@, now, Err(Seq::empty()));
                }
            }
            return;
        }
        let answer = self.backend_snapshot();
        match answer {
            Some(outcome) => {
                let ghost o = poll_outcome_view(outcome);
                self.apply_poll(now, outcome);
                assert(polled(old(self)@, now, o) == self@);
                proof {
                    if voice_inv(old(self)@) {
                        lemma_polled_keeps_inv(old(self)@, now, o);
                    }
                }
            },
            None => {
                assert(polled(old(self)@, now, Err(Seq::empty())) == self@);
            },
        }
    }

    /// The rest of a poll once the backend has answered with `outcome`: an error becomes the
    /// failure message, a snapshot is taken over unless it is stale.
    pub fn apply_poll(&mut self, now: u64, outcome: Result<WorkerSnapshot, VoiceBackendError>)
        ensures
            voice_inv(old(self)@) && old(self)@.enabled ==> voice_inv(final(self)@),
            final(self)@ == poll_answered(old(self)@, now, poll_outcome_view(outcome)),
    {
        match outcome {
            Err(error) => {
                let message = error.message();
                self.fail(message, now);
            },
            Ok(snapshot) => {
                self.observe_snapshot(snapshot, now);
            },
        }
    }

    /// The rest of a start once the backend has answered with `outcome`: recording, or failed with
    /// the error's message.
    pub fn apply_start(&mut self, outcome: Result<(), VoiceBackendError>, now: u64)
        ensures
            voice_inv(old(self)@) && old(self)@.enabled ==> voice_inv(final(self)@),
            final(self)@ == start_answered(old(self)@, call_outcome_view(outcome), now),
    {
        match outcome {
            Ok(()) => self.set_state(VoiceState::Recording, now),
            Err(error) => {
                let message = error.message();
                self.fail(message, now);
            },
        }
    }

    /// The rest of a stop once the backend has answered with `outcome`: recognizing, or failed with
    /// the error's message.
    pub fn apply_stop(&mut self, outcome: Result<(), VoiceBackendError>, now: u64)
        ensures
            voice_inv(old(self)@) && old(self)@.enabled ==> voice_inv(final(self)@),
            final(self)@ == stop_answered(old(self)@, call_outcome_view(outcome), now),
    {
        match outcome {
            Ok(()) => self.set_state(VoiceState::Recognizing, now),
            Err(error) => {
                let message = error.message();
                self.fail(message, now);
            },
        }
    }

    fn observe_snapshot(&mut self, snapshot: WorkerSnapshot, now: u64)
        ensures
            final(self)@ == observed(old(self)@, now, snapshot@),
    {
        let same_request = match (snapshot.request, self.request) {
            (Some(a), Some(b)) => a == b,
            (None, None) => true,
            _ => false,
        };
        let worker_recording = match snapshot.state {
            VoiceState::Recording => true,
            _ => false,
        };
        let recognizing = match self.state {
            VoiceState::Recognizing => true,
            _ => false,
        };
        if self.request.is_some() && (snapshot.request.is_none() || (recognizing
            && worker_recording)) {
            return;
        }
        if snapshot.request.is_some() && !same_request {
            return;
        }
        let ghost m1 = self@;
        self.set_state(snapshot.state, now);
        self.level = snapshot.level;
        self.partial = snapshot.partial;
        self.message = snapshot.message;
        self.delivery = match (snapshot.request, snapshot.text) {
            (Some(request), Some(text)) => {
                if same_request {
                    Some(VoiceDelivery { request, text })
                } else {
                    None
                }
            },
            _ => None,
        };
        let idle = match self.state {
            VoiceState::Idle => true,
            _ => false,
        };
        if idle && self.delivery.is_none() {
            self.session = None;
            self.request = None;
        }
    }

    fn fail(&mut self, message: String, now: u64)
        ensures
            final(self)@ == failed(old(self)@, message@, now),
    {
        self.set_state(VoiceState::Failed, now);
        self.level = 0;
        self.partial = None;
        self.message = Some(message);
        self.delivery = None;
    }

    fn timeout_recognition(&mut self, now: u64)
        ensures
            final(self)@ == timed_out(old(self)@, now),
    {
        let request = self.request.take();
        if let Some(request) = request {
            self.backend_cancel(request);
        }
        self.set_state(VoiceState::Failed, now);
        self.level = 0;
        self.partial = None;
        self.delivery = None;
        self.message = Some(String::from_str("识别超时，请重试"));
    }
}

} // verus!
