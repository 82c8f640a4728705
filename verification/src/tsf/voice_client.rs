//! The text service's side of voice input: the shortcut's key state, the synced trigger, and the
//! reliable write of a final transcript into the document (written once, acknowledged until the
//! server lets go of it).
use vstd::prelude::*;

use crate::protocol::{state_is_active, trigger_key, VoiceAction, VoiceState, VoiceTrigger};

verus! {

/// The voice state a text service keeps.
#[derive(Clone, Copy, Debug, PartialEq, Eq, Structural)]
pub struct VoiceClientState {
    /// The shortcut the server last announced (`Off` while voice input is off).
    pub trigger: VoiceTrigger,
    /// The server reports an active recording, recognition or result.
    pub active: bool,
    /// The shortcut key is held down.
    pub key_held: bool,
    /// Another key was pressed while the shortcut key was held.
    pub combo: bool,
    /// A write of this request's transcript has been handed to the document and not finished yet.
    pub queued: Option<u64>,
    /// This request's transcript is in the document but the server has not taken the acknowledgement.
    pub committed: Option<u64>,
}

/// What to do after a voice sync.
#[derive(Debug)]
pub enum SyncAction {
    /// Nothing.
    Nothing,
    /// The transcript of this request is already in the document: acknowledge it (again).
    Ack(u64),
    /// Write this transcript of this request into the document.
    Write(u64, String),
}

/// The view of a sync action.
pub enum SyncActionModel {
    Nothing,
    Ack(u64),
    Write(u64, Seq<char>),
}

impl View for SyncAction {
    type V = SyncActionModel;

    open spec fn view(&self) -> SyncActionModel {
        match self {
            SyncAction::Nothing => SyncActionModel::Nothing,
            SyncAction::Ack(r) => SyncActionModel::Ack(*r),
            SyncAction::Write(r, t) => SyncActionModel::Write(*r, t@),
        }
    }
}

/// What a release of the shortcut key means.
#[derive(Clone, Copy, Debug, PartialEq, Eq, Structural)]
pub enum KeyUpDecision {
    /// The key was used as a modifier of another key: only end the hold.
    Combo,
    /// A second toggle inside the debounce window: ignore it.
    Debounced,
    /// Send this action to the server.
    Toggle(VoiceAction),
}

/// The state and action after a sync announcing `enabled`, `trigger`, `state` and an optional
/// delivery; `has_context` says a document is known to write into.
pub open spec fn synced(
    s: VoiceClientState,
    enabled: bool,
    trigger: VoiceTrigger,
    state: VoiceState,
    delivery: Option<(u64, Seq<char>)>,
    has_context: bool,
) -> (VoiceClientState, SyncActionModel) {
    let t = VoiceClientState {
        trigger: if enabled {
            trigger
        } else {
            VoiceTrigger::Off
        },
        active: state_is_active(state),
        ..s
    };
    match delivery {
        None => (t, SyncActionModel::Nothing),
        Some((request, text)) => if t.committed == Some(request) {
            (t, SyncActionModel::Ack(request))
        } else if t.queued == Some(request) || !has_context {
            (t, SyncActionModel::Nothing)
        } else {
            (VoiceClientState { queued: Some(request), ..t }, SyncActionModel::Write(request, text))
        },
    }
}

/// The server took the acknowledgement of a transcript: the result is finished.
pub open spec fn ack_accepted(s: VoiceClientState) -> VoiceClientState {
    VoiceClientState { committed: None, queued: None, active: false, ..s }
}

/// The transcript of `request` is in the document.
pub open spec fn written(s: VoiceClientState, request: u64) -> VoiceClientState {
    VoiceClientState { queued: None, committed: Some(request), ..s }
}

/// The write could not be done or was refused: a later sync may try again.
pub open spec fn write_failed(s: VoiceClientState) -> VoiceClientState {
    VoiceClientState { queued: None, ..s }
}

/// Cancelling voice input from this side (focus lost, Esc): only an active one is cancelled.
pub open spec fn client_cancelled(s: VoiceClientState) -> VoiceClientState {
    if s.active {
        VoiceClientState { active: false, key_held: false, queued: None, ..s }
    } else {
        s
    }
}

/// A key went down; `is_voice_key` says it counts as the shortcut's own key-down.
pub open spec fn key_went_down(s: VoiceClientState, is_voice_key: bool) -> VoiceClientState {
    if s.key_held && !is_voice_key {
        VoiceClientState { combo: true, ..s }
    } else {
        s
    }
}

/// The shortcut key went down: a hold starts and any earlier combination is forgotten.
pub open spec fn shortcut_pressed(s: VoiceClientState) -> VoiceClientState {
    VoiceClientState { key_held: true, combo: false, ..s }
}

/// The shortcut key went up; `debounced` says the previous toggle was too recent.
pub open spec fn shortcut_released(s: VoiceClientState, debounced: bool) -> (
    VoiceClientState,
    KeyUpDecision,
) {
    let t = VoiceClientState { key_held: false, combo: false, ..s };
    if s.combo {
        (t, KeyUpDecision::Combo)
    } else if debounced {
        (t, KeyUpDecision::Debounced)
    } else {
        (
            t,
            KeyUpDecision::Toggle(
                if s.active {
                    VoiceAction::Stop
                } else {
                    VoiceAction::Start
                },
            ),
        )
    }
}

/// After a sync the text service counts voice input as active exactly while the server records,
/// recognises or holds a result, whatever it was before; so a plain release of the shortcut then
/// asks to stop in those phases and to start in any other, and Esc cancels only in those phases.
pub proof fn lemma_sync_decides_active(
    s: VoiceClientState,
    enabled: bool,
    trigger: VoiceTrigger,
    state: VoiceState,
    delivery: Option<(u64, Seq<char>)>,
    has_context: bool,
)
    ensures
        ({
            let t = synced(s, enabled, trigger, state, delivery, has_context).0;
            let running = state == VoiceState::Recording || state == VoiceState::Recognizing
                || state == VoiceState::Ready;
            &&& t.active == running
            &&& !t.combo ==> shortcut_released(t, false).1 == KeyUpDecision::Toggle(
                if running {
                    VoiceAction::Stop
                } else {
                    VoiceAction::Start
                },
            )
            &&& client_cancelled(t).active == false
            &&& (client_cancelled(t) == t) == !running
        }),
{
}

/// A delivered transcript is written into the document once: a sync for a request already in the
/// document acknowledges it, a fresh one with a document at hand is written, and repeating the
/// same sync while that write is under way writes nothing more. Without a document nothing is
/// written. The shortcut taken over is the announced one, or none when voice input is off.
pub proof fn lemma_delivery_written_once(
    s: VoiceClientState,
    enabled: bool,
    trigger: VoiceTrigger,
    state: VoiceState,
    request: u64,
    text: Seq<char>,
    has_context: bool,
)
    ensures
        ({
            let first = synced(s, enabled, trigger, state, Some((request, text)), has_context);
            let second = synced(first.0, enabled, trigger, state, Some((request, text)), has_context);
            &&& first.0.trigger == (if enabled {
                trigger
            } else {
                VoiceTrigger::Off
            })
            &&& s.committed == Some(request) ==> first.1 == SyncActionModel::Ack(request)
            &&& !has_context ==> !(first.1 is Write)
            &&& s.committed != Some(request) && s.queued != Some(request) && has_context ==> first.1
                == SyncActionModel::Write(request, text) && first.0.queued == Some(request)
            &&& first.1 is Write ==> !(second.1 is Write)
            &&& synced(
                written(first.0, request),
                enabled,
                trigger,
                state,
                Some((request, text)),
                has_context,
            ).1 == SyncActionModel::Ack(request)
        }),
{
}

/// The server accepted a shortcut action: a start makes voice input active here at once.
pub open spec fn action_sent(s: VoiceClientState, action: VoiceAction) -> VoiceClientState {
    if action == VoiceAction::Start {
        VoiceClientState { active: true, ..s }
    } else {
        s
    }
}

fn same_request(a: Option<u64>, b: u64) -> (r: bool)
    ensures
        r == (a == Some(b)),
{
    match a {
        Some(a) => a == b,
        None => false,
    }
}

impl VoiceClientState {
    /// No shortcut, nothing active, nothing pending.
    pub fn new() -> (r: Self)
        ensures
            r == (VoiceClientState {
                trigger: VoiceTrigger::Off,
                active: false,
                key_held: false,
                combo: false,
                queued: None,
                committed: None,
            }),
    {
        VoiceClientState {
            trigger: VoiceTrigger::Off,
            active: false,
            key_held: false,
            combo: false,
            queued: None,
            committed: None,
        }
    }

    /// The virtual key of the synced shortcut.
    pub fn shortcut_key(&self) -> (r: Option<u32>)
        ensures
            r == trigger_key(self.trigger),
    {
        self.trigger.virtual_key()
    }

    /// Takes over a voice sync: the shortcut, whether voice input is active, and what to do with
    /// a delivered transcript. A transcript already in the document is acknowledged instead of
    /// written again; one whose write is under way is left alone.
    pub fn apply_voice_sync(
        &mut self,
        enabled: bool,
        trigger: VoiceTrigger,
        state: VoiceState,
        delivery: Option<(u64, String)>,
        has_context: bool,
    ) -> (r: SyncAction)
        ensures
            (*final(self), r@) == synced(
                *old(self),
                enabled,
                trigger,
                state,
                match delivery {
                    Some((request, text)) => Some((request, text@)),
                    None => None,
                },
                has_context,
            ),
    {
        self.trigger = if enabled {
            trigger
        } else {
            VoiceTrigger::Off
        };
        self.active = match state {
            VoiceState::Recording | VoiceState::Recognizing | VoiceState::Ready => true,
            _ => false,
        };
        let (request, text) = match delivery {
            None => {
                return SyncAction::Nothing;
            },
            Some(d) => d,
        };
        if same_request(self.committed, request) {
            return SyncAction::Ack(request);
        }
        if same_request(self.queued, request) || !has_context {
            return SyncAction::Nothing;
        }
        self.queued = Some(request);
        SyncAction::Write(request, text)
    }

    /// The server took the acknowledgement: the transcript is finished.
    pub fn ack_accepted(&mut self)
        ensures
            *final(self) == ack_accepted(*old(self)),
    {
        self.committed = None;
        self.queued = None;
        self.active = false;
    }

    /// The transcript of `request` is in the document; it must now be acknowledged.
    pub fn voice_written(&mut self, request: u64)
        ensures
            *final(self) == written(*old(self), request),
    {
        self.queued = None;
        self.committed = Some(request);
    }

    /// The write of the transcript failed or was refused.
    pub fn voice_write_failed(&mut self)
        ensures
            *final(self) == write_failed(*old(self)),
    {
        self.queued = None;
    }

    /// Cancels voice input from this side; returns whether a cancel must be sent to the server.
    pub fn cancel_voice(&mut self) -> (r: bool)
        ensures
            r == old(self).active,
            *final(self) == client_cancelled(*old(self)),
    {
        if !self.active {
            return false;
        }
        self.active = false;
        self.key_held = false;
        self.queued = None;
        true
    }

    /// A key went down while maybe holding the shortcut.
    pub fn note_key_down(&mut self, is_voice_key: bool)
        ensures
            *final(self) == key_went_down(*old(self), is_voice_key),
    {
        if self.key_held && !is_voice_key {
            self.combo = true;
        }
    }

    /// The shortcut key went down.
    pub fn shortcut_pressed(&mut self)
        ensures
            *final(self) == shortcut_pressed(*old(self)),
    {
        self.key_held = true;
        self.combo = false;
    }

    /// The shortcut key went up; `debounced` says the previous toggle was too recent.
    pub fn shortcut_released(&mut self, debounced: bool) -> (r: KeyUpDecision)
        ensures
            (*final(self), r) == shortcut_released(*old(self), debounced),
    {
        let combo = self.combo;
        self.key_held = false;
        self.combo = false;
        if combo {
            KeyUpDecision::Combo
        } else if debounced {
            KeyUpDecision::Debounced
        } else {
            KeyUpDecision::Toggle(if self.active {
                VoiceAction::Stop
            } else {
                VoiceAction::Start
            })
        }
    }

    /// The server accepted `action`.
    pub fn action_sent(&mut self, action: VoiceAction)
        ensures
            *final(self) == action_sent(*old(self), action),
    {
        if let VoiceAction::Start = action {
            self.active = true;
        }
    }
}

/// A transcript is written at most once: once its write is under way, another sync with the same
/// delivery does not write it again; once it is in the document, the sync acknowledges it instead.
pub proof fn lemma_transcript_written_once(
    s: VoiceClientState,
    enabled: bool,
    trigger: VoiceTrigger,
    state: VoiceState,
    request: u64,
    text: Seq<char>,
)
    ensures
        ({
            let first = synced(s, enabled, trigger, state, Some((request, text)), true);
            first.1 is Write ==> {
                &&& first.0.queued == Some(request)
                &&& synced(first.0, enabled, trigger, state, Some((request, text)), true).1 is Nothing
                &&& synced(written(first.0, request), enabled, trigger, state, Some((request, text)), true).1
                    == SyncActionModel::Ack(request)
            }
        }),
{
}

/// Once the acknowledgement is taken nothing of the transcript is pending, and voice input is
/// inactive here.
pub proof fn lemma_ack_finishes(s: VoiceClientState)
    ensures
        ack_accepted(s).committed is None,
        ack_accepted(s).queued is None,
        !ack_accepted(s).active,
{
}

/// Using the shortcut key as a modifier of another key never toggles recording.
pub proof fn lemma_combination_never_toggles(s: VoiceClientState, debounced: bool)
    ensures
        shortcut_released(key_went_down(shortcut_pressed(s), false), debounced).1
            == KeyUpDecision::Combo,
        shortcut_released(shortcut_pressed(s), false).1 == KeyUpDecision::Toggle(
            if s.active {
                VoiceAction::Stop
            } else {
                VoiceAction::Start
            },
        ),
{
}

/// With voice input off on the server, the shortcut is off here too.
pub proof fn lemma_disabled_sync_turns_shortcut_off(
    s: VoiceClientState,
    trigger: VoiceTrigger,
    state: VoiceState,
    delivery: Option<(u64, Seq<char>)>,
    has_context: bool,
)
    ensures
        synced(s, false, trigger, state, delivery, has_context).0.trigger == VoiceTrigger::Off,
{
}

} // verus!
