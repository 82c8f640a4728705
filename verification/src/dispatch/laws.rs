//! Properties of the router's status bar and candidate window bookkeeping.
use vstd::prelude::*;

use crate::dispatch::model::{
    candidates_reconciled, focused_owns_voice, full_width_for, hidden, ime_switched, mode_changed,
    pending_for, pending_taken, punctuation_english, status_claimed, status_command,
    status_event_applied, status_event_writes, voice_reconciled, window_frame, ConfigView,
    ConfigWrite, RouterModel, StatusCommandModel, StatusEvent, WindowCommandModel,
};
use crate::protocol::{
    frame_is_empty, state_is_active, FrameView, SessionId, SnapshotView, SyncView, VoiceState,
};

verus! {

/// The mode picked on the status bar goes only to the session that owns the bar, and only once.
pub proof fn lemma_pending_mode_only_for_owner(m: RouterModel, session: SessionId)
    ensures
        pending_for(m, session) is Some ==> m.status_session == Some(session),
        pending_for(pending_taken(m, session), session) is None,
        m.status_session != Some(session) ==> pending_taken(m, session) == m,
{
}

/// When the bar changes owner, a click the previous owner did not pick up is dropped.
pub proof fn lemma_owner_change_drops_pending(m: RouterModel, session: SessionId, english: bool)
    requires
        m.status_session != Some(session),
    ensures
        mode_changed(m, session, english).pending_mode is None,
        mode_changed(m, session, english).status_session == Some(session),
        mode_changed(m, session, english).status_mode == Some(english),
        status_claimed(m, session).pending_mode is None,
        status_claimed(m, session).status_session == Some(session),
{
}

/// A mode click flips what the bar shows at once and leaves the target mode for the owner;
/// a second click flips it back.
pub proof fn lemma_mode_click_round_trip(m: RouterModel, english: bool)
    requires
        m.status_mode == Some(english),
    ensures
        status_event_applied(m, StatusEvent::ToggleMode).status_mode == Some(!english),
        status_event_applied(m, StatusEvent::ToggleMode).pending_mode == Some(!english),
        status_event_applied(status_event_applied(m, StatusEvent::ToggleMode), StatusEvent::ToggleMode).status_mode
            == Some(english),
        status_event_writes(m, StatusEvent::ToggleMode).len() == 0,
{
}

/// A mode click before any text service reported a mode does nothing.
pub proof fn lemma_mode_click_without_mode_is_inert(m: RouterModel)
    requires
        m.status_mode is None,
    ensures
        status_event_applied(m, StatusEvent::ToggleMode) == m,
{
}

/// A punctuation click flips only the setting of the mode the bar shows (Chinese when no mode is
/// known), writes exactly that key, and a second click restores the settings.
pub proof fn lemma_punctuation_click_flips_current_mode(m: RouterModel)
    ensures
        ({
            let english = punctuation_english(m);
            let a = status_event_applied(m, StatusEvent::TogglePunctuation);
            &&& full_width_for(a.config, english) == !full_width_for(m.config, english)
            &&& full_width_for(a.config, !english) == full_width_for(m.config, !english)
            &&& status_event_writes(m, StatusEvent::TogglePunctuation) == if english {
                seq![ConfigWrite::EnglishFullWidth(!full_width_for(m.config, true))]
            } else {
                seq![ConfigWrite::FullWidth(!full_width_for(m.config, false))]
            }
        }),
        status_event_applied(
            status_event_applied(m, StatusEvent::TogglePunctuation),
            StatusEvent::TogglePunctuation,
        ).config == m.config,
{
}

/// A drag stores the new position and writes both coordinates.
pub proof fn lemma_move_is_persisted(m: RouterModel, x: i32, y: i32)
    ensures
        status_event_applied(m, StatusEvent::Moved(x, y)).config.status_pos == Some((x, y)),
        status_event_writes(m, StatusEvent::Moved(x, y)) == seq![
            ConfigWrite::StatusX(x as i64),
            ConfigWrite::StatusY(y as i64),
        ],
{
}

/// The bar is shown exactly when it is enabled and a mode is known; it then shows that mode and
/// that mode's punctuation setting.
pub proof fn lemma_status_shown_exactly_when_enabled_and_known(m: RouterModel)
    ensures
        (status_command(m) is Show) == (m.status_mode is Some && m.config.status_enabled),
        status_command(m) matches StatusCommandModel::Show(v) ==> v.english
            == m.status_mode.unwrap() && v.full_width == full_width_for(m.config, v.english),
        status_command(ime_switched(m)) is Hide,
{
}

/// While a voice recording is active, the generic hide changes nothing.
pub proof fn lemma_voice_panel_survives_hides(m: RouterModel)
    requires
        state_is_active(m.voice.state),
    ensures
        hidden(m) == (m, WindowCommandModel::Keep),
{
}

/// Taking the pinyin line out of the window keeps every candidate.
pub proof fn lemma_window_frame_keeps_candidates(c: ConfigView, f: FrameView)
    ensures
        window_frame(c, f).candidates == f.candidates,
        !c.preedit_in_window ==> window_frame(c, f).preedit.len() == 0 && window_frame(c, f).cursor
            == 0,
        c.preedit_in_window ==> window_frame(c, f) == f,
{
}

/// Without a caret rectangle nothing is drawn; with one, a frame that is already on screen is not
/// drawn again, so reconciling twice redraws at most once.
pub proof fn lemma_redraw_only_on_change(
    m: RouterModel,
    frame: FrameView,
    now: u64,
    poll: Result<SnapshotView, Seq<char>>,
)
    requires
        !focused_owns_voice(m),
    ensures
        m.last_rect is None ==> !(candidates_reconciled(m, frame, now, poll).1.command is Show),
        ({
            let first = candidates_reconciled(m, frame, now, poll);
            let second = candidates_reconciled(first.0, frame, now, poll);
            first.1.command is Show ==> second.1.command is Keep && second.0 == first.0
        }),
{
}

/// An empty frame closes the window (unless a voice recording owns it) and nothing counts as seen.
pub proof fn lemma_empty_frame_closes(
    m: RouterModel,
    frame: FrameView,
    now: u64,
    poll: Result<SnapshotView, Seq<char>>,
)
    requires
        !focused_owns_voice(m),
        frame_is_empty(window_frame(m.config, frame)),
    ensures
        candidates_reconciled(m, frame, now, poll).1.cleared,
        !state_is_active(m.voice.state) ==> candidates_reconciled(m, frame, now, poll).1.command
            is Hide && candidates_reconciled(m, frame, now, poll).0.last_rect is None,
{
}

/// While the owning session records, recognises or holds a result and its caret is known, the
/// voice panel is shown at the caret with the phase and level reported; its text is the final
/// transcript as soon as there is one, and the partial transcript only before.
pub proof fn lemma_voice_panel_text(m: RouterModel, session: SessionId, sync: SyncView, now: u64)
    requires
        m.voice.session == Some(session),
        sync.state == VoiceState::Recording || sync.state == VoiceState::Recognizing || sync.state
            == VoiceState::Ready,
        m.last_rect is Some,
    ensures
        ({
            let r = voice_reconciled(m, session, sync, now);
            &&& r.1 matches WindowCommandModel::ShowVoice(view, rect) && rect == m.last_rect.unwrap()
                && view.state == sync.state && view.level == sync.level && (sync.delivery matches Some(
                d) ==> view.text == Some(d.text)) && (sync.delivery is None ==> view.text
                == sync.partial)
            &&& r.0.voice_visible
        }),
{
}

} // verus!
