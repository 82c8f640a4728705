//! Properties of the voice coordinator that hold across its operations.
use vstd::prelude::*;

use crate::protocol::{DeliveryView, SessionId, SnapshotView, VoiceAction, VoiceState, VoiceTrigger};
use crate::voice::coordinator::{
    acked, cancel_calls, cancelled, cancelled_for, configured, configured_failure, disabled,
    handled, lemma_handled_keeps_inv, lemma_polled_keeps_inv, observed, polled, request_after, resting_state, snapshot_ignored, started, stopped,
    sync_view, timeout_message, voice_inv, BackendCall, VoiceModel, RECOGNITION_TIMEOUT_MS,
};

verus! {

/// Every operation keeps the coordinator's invariant: voice input off means the `Disabled`
/// phase, a request always has an owning session and is the latest one the backend was asked to
/// start, a delivery always belongs to the current request, and request ids are never 0.
pub proof fn lemma_invariant_preserved(
    m: VoiceModel,
    session: SessionId,
    action: VoiceAction,
    trigger: VoiceTrigger,
    request: u64,
    message: Seq<char>,
    now: u64,
    outcome: Result<(), Seq<char>>,
    poll: Result<SnapshotView, Seq<char>>,
)
    requires
        voice_inv(m),
    ensures
        voice_inv(cancelled(m, now)),
        voice_inv(disabled(m, now)),
        voice_inv(configured(m, trigger, now)),
        voice_inv(configured_failure(m, trigger, message, now)),
        voice_inv(handled(m, session, action, now, outcome)),
        voice_inv(acked(m, session, request, now)),
        voice_inv(polled(m, now, poll)),
{
    lemma_handled_keeps_inv(m, session, action, now, outcome);
    lemma_polled_keeps_inv(m, now, poll);
}

/// Only the session that owns the recording ever sees its partial text or its result.
pub proof fn lemma_result_is_private(m: VoiceModel, session: SessionId)
    ensures
        sync_view(m, session).delivery is Some ==> m.session == Some(session),
        sync_view(m, session).partial is Some ==> m.session == Some(session),
        m.session != Some(session) ==> sync_view(m, session).delivery is None,
{
}

/// A result is repeated until it is acknowledged: observing the same worker report twice
/// changes nothing the second time, so a delivery stays in place poll after poll.
pub proof fn lemma_repeated_report_is_idempotent(
    m: VoiceModel,
    first: u64,
    second: u64,
    snap: SnapshotView,
)
    ensures
        observed(observed(m, first, snap), second, snap) == observed(m, first, snap),
{
}

/// An acknowledgement from another session, or for another request, changes nothing; the
/// owner's acknowledgement of the current request clears the result and frees the coordinator.
pub proof fn lemma_ack_only_by_owner(m: VoiceModel, session: SessionId, request: u64, now: u64)
    ensures
        (m.session != Some(session) || m.request != Some(request)) ==> acked(
            m,
            session,
            request,
            now,
        ) == m,
        (m.session == Some(session) && m.request == Some(request)) ==> {
            let a = acked(m, session, request, now);
            &&& a.delivery is None
            &&& a.session is None
            &&& a.request is None
            &&& a.state == resting_state(m.enabled)
        },
{
}

/// After a cancel there is no current request, so a result the worker reports later is ignored.
pub proof fn lemma_cancel_drops_late_result(m: VoiceModel, now: u64, later: u64, snap: SnapshotView)
    requires
        snap.request is Some,
    ensures
        cancelled(m, now).request is None,
        observed(cancelled(m, now), later, snap) == cancelled(m, now),
{
}

/// While the worker has not yet taken the current request (it may still be loading its model),
/// or still reports recording after a stop was sent, the coordinator does not move backwards:
/// a quick press-and-release is not lost.
pub proof fn lemma_no_rollback_while_worker_catches_up(m: VoiceModel, now: u64, snap: SnapshotView)
    requires
        m.request is Some,
        snap.request is None || (m.state == VoiceState::Recognizing && snap.state
            == VoiceState::Recording),
    ensures
        observed(m, now, snap) == m,
{
}

/// An empty result for the current request returns to idle, keeps the worker's message and
/// frees the session, so the next recording can start.
pub proof fn lemma_empty_result_returns_to_idle(m: VoiceModel, now: u64, snap: SnapshotView)
    requires
        m.request is Some,
        snap.request == m.request,
        snap.state == VoiceState::Idle,
        snap.text is None,
    ensures
        observed(m, now, snap).state == VoiceState::Idle,
        observed(m, now, snap).session is None,
        observed(m, now, snap).request is None,
        observed(m, now, snap).message == snap.message,
{
}

/// A recognition that runs past its limit fails with the timeout message whatever the worker
/// says, the backend is asked to cancel the request (and for nothing else), and the next start
/// from the same session records again.
pub proof fn lemma_timeout_recovers(
    m: VoiceModel,
    now: u64,
    poll: Result<SnapshotView, Seq<char>>,
    session: SessionId,
    later: u64,
)
    requires
        m.enabled,
        m.has_backend,
        m.state == VoiceState::Recognizing,
        now - m.state_since >= RECOGNITION_TIMEOUT_MS,
    ensures
        polled(m, now, poll).state == VoiceState::Failed,
        polled(m, now, poll).message == Some(timeout_message()),
        polled(m, now, poll).request is None,
        polled(m, now, poll).calls == cancel_calls(m, m.request),
        handled(polled(m, now, poll), session, VoiceAction::Start, later, Ok(())).state
            == VoiceState::Recording,
{
}

/// With voice input off, shortcut actions and polls change nothing and ask nothing of the backend.
pub proof fn lemma_disabled_is_inert(
    m: VoiceModel,
    session: SessionId,
    action: VoiceAction,
    now: u64,
    outcome: Result<(), Seq<char>>,
    poll: Result<SnapshotView, Seq<char>>,
)
    requires
        !m.enabled,
    ensures
        handled(m, session, action, now, outcome) == m,
        polled(m, now, poll) == m,
{
}

/// Only the owning session can stop or cancel a recording.
pub proof fn lemma_only_owner_stops_or_cancels(
    m: VoiceModel,
    session: SessionId,
    now: u64,
    outcome: Result<(), Seq<char>>,
)
    requires
        m.session != Some(session),
    ensures
        stopped(m, session, now, outcome) == m,
        cancelled_for(m, session, now) == m,
{
}

/// A successful start binds a fresh request to the session and begins recording; pressing start
/// again from the same session while it records or recognises changes nothing.
pub proof fn lemma_start_binds_fresh_request(m: VoiceModel, session: SessionId, now: u64)
    requires
        voice_inv(m),
        m.enabled,
        m.has_backend,
    ensures
        !(m.session == Some(session) && (m.state == VoiceState::Recording || m.state
            == VoiceState::Recognizing)) ==> {
            let s = started(m, session, now, Ok(()));
            &&& s.state == VoiceState::Recording
            &&& s.session == Some(session)
            &&& s.request == Some(m.next_request)
            &&& s.next_request == request_after(m.next_request)
            &&& s.delivery is None
        },
        (m.session == Some(session) && (m.state == VoiceState::Recording || m.state
            == VoiceState::Recognizing)) ==> started(m, session, now, Ok(())) == m,
{
}

/// A delivery that is observed is the worker's text for the current request.
pub proof fn lemma_delivery_matches_request(m: VoiceModel, now: u64, snap: SnapshotView)
    requires
        voice_inv(m),
        observed(m, now, snap).delivery is Some,
        !snapshot_ignored(m, snap),
    ensures
        observed(m, now, snap).delivery == Some(
            DeliveryView { request: m.request.unwrap(), text: snap.text.unwrap() },
        ),
        snap.request == m.request,
{
}

/// A start asks the backend for exactly this: to cancel the request in flight (if any), then to
/// start the next request id, and its answer is logged. Whatever the backend answers, the new
/// request belongs to the session; an accepted start records, a refused one fails with the backend's
/// message and delivers nothing.
pub proof fn lemma_start_asks_backend(
    m: VoiceModel,
    session: SessionId,
    now: u64,
    outcome: Result<(), Seq<char>>,
)
    requires
        m.enabled,
        m.has_backend,
        !(m.session == Some(session) && (m.state == VoiceState::Recording || m.state
            == VoiceState::Recognizing)),
    ensures
        handled(m, session, VoiceAction::Start, now, outcome).calls == cancel_calls(
            m,
            m.request,
        ).push(BackendCall::Start(m.next_request)),
        handled(m, session, VoiceAction::Start, now, outcome).answers == m.answers.push(outcome),
        handled(m, session, VoiceAction::Start, now, outcome).request == Some(m.next_request),
        handled(m, session, VoiceAction::Start, now, outcome).session == Some(session),
        outcome is Ok ==> handled(m, session, VoiceAction::Start, now, outcome).state
            == VoiceState::Recording,
        outcome matches Err(message) ==> {
            let r = handled(m, session, VoiceAction::Start, now, outcome);
            &&& r.state == VoiceState::Failed
            &&& r.message == Some(message)
            &&& r.delivery is None
        },
{
}

/// Without a backend a start asks nothing and fails for the session; a repeated start by the
/// session that records or recognises asks nothing and changes nothing.
pub proof fn lemma_start_without_call(
    m: VoiceModel,
    session: SessionId,
    now: u64,
    outcome: Result<(), Seq<char>>,
)
    requires
        m.enabled,
    ensures
        !m.has_backend ==> handled(m, session, VoiceAction::Start, now, outcome).calls == m.calls
            && handled(m, session, VoiceAction::Start, now, outcome).answers == m.answers
            && handled(m, session, VoiceAction::Start, now, outcome).state == VoiceState::Failed
            && handled(m, session, VoiceAction::Start, now, outcome).session == Some(session),
        m.has_backend && m.session == Some(session) && (m.state == VoiceState::Recording
            || m.state == VoiceState::Recognizing) ==> handled(
            m,
            session,
            VoiceAction::Start,
            now,
            outcome,
        ) == m,
{
}

/// A stop by the owner of a recording asks the backend to stop the current request, once, and its
/// answer is logged; an accepted stop recognises, a refused one fails with the backend's message. Any other stop
/// asks nothing and changes nothing.
pub proof fn lemma_stop_asks_backend(
    m: VoiceModel,
    session: SessionId,
    now: u64,
    outcome: Result<(), Seq<char>>,
)
    requires
        m.enabled,
    ensures
        ({
            let r = handled(m, session, VoiceAction::Stop, now, outcome);
            if m.session == Some(session) && m.state == VoiceState::Recording && m.request is Some
                && m.has_backend {
                &&& r.calls == m.calls.push(BackendCall::Stop(m.request.unwrap()))
                &&& r.answers == m.answers.push(outcome)
                &&& r.request == m.request
                &&& outcome is Ok ==> r.state == VoiceState::Recognizing
                &&& outcome matches Err(message) ==> r.state == VoiceState::Failed && r.message
                    == Some(message) && r.delivery is None
            } else {
                r == m
            }
        }),
{
}

/// A cancel asks the backend to cancel the request in flight exactly when there is a backend
/// and a request; a second cancel asks nothing more. Turning voice input off cancels the same way.
pub proof fn lemma_cancel_asks_backend_once(m: VoiceModel, now: u64, later: u64)
    ensures
        cancelled(m, now).calls == if m.has_backend && m.request is Some {
            m.calls.push(BackendCall::Cancel(m.request.unwrap()))
        } else {
            m.calls
        },
        cancelled(cancelled(m, now), later).calls == cancelled(m, now).calls,
        disabled(m, now).calls == cancelled(m, now).calls,
        !disabled(m, now).has_backend,
{
}

/// A poll asks the backend for a snapshot, and for nothing else, exactly when voice input is on,
/// there is a backend and recognition has not run past its limit.
pub proof fn lemma_poll_asks_for_snapshot(
    m: VoiceModel,
    now: u64,
    poll: Result<SnapshotView, Seq<char>>,
)
    ensures
        m.enabled && m.has_backend && !(m.state == VoiceState::Recognizing && now - m.state_since
            >= RECOGNITION_TIMEOUT_MS) ==> polled(m, now, poll).calls == m.calls.push(
            BackendCall::Snapshot,
        ),
        !m.enabled || !m.has_backend ==> polled(m, now, poll).calls == m.calls,
{
}

} // verus!
