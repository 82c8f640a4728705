//! Values exchanged between the text service, the server and the voice worker:
//! sessions, voice states and actions, snapshots, candidate frames and screen rectangles.
use vstd::prelude::*;

verus! {

/// One text-service connection (one application process).
#[derive(Clone, Copy, Debug, PartialEq, Eq, Structural)]
pub struct SessionId(pub u64);

/// Phase of the voice input pipeline.
#[derive(Clone, Copy, Debug, PartialEq, Eq, Structural)]
pub enum VoiceState {
    Disabled,
    Loading,
    Idle,
    Recording,
    Recognizing,
    Polishing,
    Ready,
    Failed,
}

/// What the voice shortcut asks for.
#[derive(Clone, Copy, Debug, PartialEq, Eq, Structural)]
pub enum VoiceAction {
    Start,
    Stop,
    Cancel,
}

/// The key that toggles voice input.
#[derive(Clone, Copy, Debug, PartialEq, Eq, Structural)]
pub enum VoiceTrigger {
    RightAlt,
    RightCtrl,
    CapsLock,
    ScrollLock,
    Off,
}

/// `VK_RMENU`.
pub const VK_RMENU: u32 = 0xA5;

/// `VK_RCONTROL`.
pub const VK_RCONTROL: u32 = 0xA3;

/// `VK_CAPITAL`.
pub const VK_CAPITAL: u32 = 0x14;

/// `VK_SCROLL`.
pub const VK_SCROLL: u32 = 0x91;

/// `VK_MENU` (either Alt).
pub const VK_MENU: u32 = 0x12;

/// `VK_CONTROL` (either Ctrl).
pub const VK_CONTROL: u32 = 0x11;

/// The virtual key a trigger is bound to; `None` when the shortcut is off.
pub open spec fn trigger_key(trigger: VoiceTrigger) -> Option<u32> {
    match trigger {
        VoiceTrigger::RightAlt => Some(VK_RMENU),
        VoiceTrigger::RightCtrl => Some(VK_RCONTROL),
        VoiceTrigger::CapsLock => Some(VK_CAPITAL),
        VoiceTrigger::ScrollLock => Some(VK_SCROLL),
        VoiceTrigger::Off => None,
    }
}

impl VoiceTrigger {
    /// The virtual key of this trigger.
    pub fn virtual_key(&self) -> (r: Option<u32>)
        ensures
            r == trigger_key(*self),
    {
        match self {
            VoiceTrigger::RightAlt => Some(VK_RMENU),
            VoiceTrigger::RightCtrl => Some(VK_RCONTROL),
            VoiceTrigger::CapsLock => Some(VK_CAPITAL),
            VoiceTrigger::ScrollLock => Some(VK_SCROLL),
            VoiceTrigger::Off => None,
        }
    }
}

/// The phases in which the voice panel must stay visible.
pub open spec fn state_is_active(state: VoiceState) -> bool {
    state == VoiceState::Recording || state == VoiceState::Recognizing || state == VoiceState::Ready
}

/// Whether `state` is one of the visible voice phases.
pub fn voice_state_active(state: VoiceState) -> (r: bool)
    ensures
        r == state_is_active(state),
{
    match state {
        VoiceState::Recording | VoiceState::Recognizing | VoiceState::Ready => true,
        _ => false,
    }
}

/// The view of an optional string.
pub open spec fn opt_view(o: Option<String>) -> Option<Seq<char>> {
    match o {
        Some(s) => Some(s@),
        None => None,
    }
}

/// The texts of a list of strings.
pub open spec fn texts(v: Seq<String>) -> Seq<Seq<char>> {
    v.map_values(|s: String| s@)
}

/// Copy of an optional string.
pub fn clone_opt_string(o: &Option<String>) -> (r: Option<String>)
    ensures
        opt_view(r) == opt_view(*o),
{
    match o {
        Some(s) => Some(s.clone()),
        None => None,
    }
}

/// A final transcript, bound to the request that produced it.
#[derive(Clone, Debug, PartialEq, Eq)]
pub struct VoiceDelivery {
    pub request: u64,
    pub text: String,
}

/// Mathematical view of a delivery.
pub struct DeliveryView {
    pub request: u64,
    pub text: Seq<char>,
}

impl View for VoiceDelivery {
    type V = DeliveryView;

    open spec fn view(&self) -> DeliveryView {
        DeliveryView { request: self.request, text: self.text@ }
    }
}

/// The view of an optional delivery.
pub open spec fn opt_delivery_view(o: Option<VoiceDelivery>) -> Option<DeliveryView> {
    match o {
        Some(d) => Some(d@),
        None => None,
    }
}

/// Copy of an optional delivery.
pub fn clone_opt_delivery(o: &Option<VoiceDelivery>) -> (r: Option<VoiceDelivery>)
    ensures
        opt_delivery_view(r) == opt_delivery_view(*o),
{
    match o {
        Some(d) => Some(VoiceDelivery { request: d.request, text: d.text.clone() }),
        None => None,
    }
}

/// What the worker process reports about itself.
#[derive(Clone, Debug)]
pub struct WorkerSnapshot {
    pub state: VoiceState,
    pub request: Option<u64>,
    pub level: u16,
    pub partial: Option<String>,
    pub text: Option<String>,
    pub message: Option<String>,
}

/// Mathematical view of a worker snapshot.
pub struct SnapshotView {
    pub state: VoiceState,
    pub request: Option<u64>,
    pub level: u16,
    pub partial: Option<Seq<char>>,
    pub text: Option<Seq<char>>,
    pub message: Option<Seq<char>>,
}

impl View for WorkerSnapshot {
    type V = SnapshotView;

    open spec fn view(&self) -> SnapshotView {
        SnapshotView {
            state: self.state,
            request: self.request,
            level: self.level,
            partial: opt_view(self.partial),
            text: opt_view(self.text),
            message: opt_view(self.message),
        }
    }
}

impl WorkerSnapshot {
    /// An idle snapshot with nothing attached.
    pub fn idle() -> (r: WorkerSnapshot)
        ensures
            r@ == (SnapshotView {
                state: VoiceState::Idle,
                request: None,
                level: 0,
                partial: None,
                text: None,
                message: None,
            }),
    {
        WorkerSnapshot {
            state: VoiceState::Idle,
            request: None,
            level: 0,
            partial: None,
            text: None,
            message: None,
        }
    }
}

/// The voice state one session sees.
#[derive(Debug)]
pub struct VoiceSync {
    pub enabled: bool,
    pub trigger: VoiceTrigger,
    pub state: VoiceState,
    pub level: u16,
    pub partial: Option<String>,
    pub delivery: Option<VoiceDelivery>,
    pub message: Option<String>,
}

/// Mathematical view of a voice sync.
pub struct SyncView {
    pub enabled: bool,
    pub trigger: VoiceTrigger,
    pub state: VoiceState,
    pub level: u16,
    pub partial: Option<Seq<char>>,
    pub delivery: Option<DeliveryView>,
    pub message: Option<Seq<char>>,
}

impl View for VoiceSync {
    type V = SyncView;

    open spec fn view(&self) -> SyncView {
        SyncView {
            enabled: self.enabled,
            trigger: self.trigger,
            state: self.state,
            level: self.level,
            partial: opt_view(self.partial),
            delivery: opt_delivery_view(self.delivery),
            message: opt_view(self.message),
        }
    }
}

impl VoiceSync {
    /// Whether the voice panel is in one of its visible phases.
    pub fn is_active(&self) -> (r: bool)
        ensures
            r == state_is_active(self.state),
    {
        voice_state_active(self.state)
    }
}

/// A rectangle in screen pixels.
#[derive(Clone, Copy, Debug, PartialEq, Eq, Structural)]
pub struct ScreenRect {
    pub left: i32,
    pub top: i32,
    pub right: i32,
    pub bottom: i32,
}

/// The candidate window's color scheme, by its index in the palette list.
#[derive(Clone, Copy, Debug, PartialEq, Eq, Structural)]
pub struct ColorScheme(pub u32);

} // verus!

verus! {

/// The parts of a candidate frame the window logic reads: the pinyin line, its cursor and the
/// candidate texts of the current page.
#[derive(Debug)]
pub struct Frame {
    pub preedit: String,
    pub cursor: usize,
    pub candidates: Vec<String>,
}

/// Mathematical view of a frame.
pub struct FrameView {
    pub preedit: Seq<char>,
    pub cursor: usize,
    pub candidates: Seq<Seq<char>>,
}

impl View for Frame {
    type V = FrameView;

    open spec fn view(&self) -> FrameView {
        FrameView {
            preedit: self.preedit@,
            cursor: self.cursor,
            candidates: self.candidates@.map_values(|s: String| s@),
        }
    }
}

/// A frame with nothing to draw: no pinyin and no candidates.
pub open spec fn frame_is_empty(f: FrameView) -> bool {
    f.preedit.len() == 0 && f.candidates.len() == 0
}

/// Copy of a list of strings.
pub fn clone_strings(v: &Vec<String>) -> (r: Vec<String>)
    ensures
        r@.map_values(|s: String| s@) == v@.map_values(|s: String| s@),
{
    let mut r: Vec<String> = Vec::new();
    let mut i: usize = 0;
    while i < v.len()
        invariant
            i <= v.len(),
            r.len() == i,
            forall|j: int| 0 <= j < i ==> r@[j]@ == v@[j]@,
        decreases v.len() - i,
    {
        r.push(v[i].clone());
        i = i + 1;
    }
    assert(r@.map_values(|s: String| s@) =~= v@.map_values(|s: String| s@));
    r
}

/// Whether two lists of strings hold the same texts in the same order.
pub fn strings_equal(a: &Vec<String>, b: &Vec<String>) -> (r: bool)
    ensures
        r == (a@.map_values(|s: String| s@) == b@.map_values(|s: String| s@)),
{
    if a.len() != b.len() {
        assert(a@.map_values(|s: String| s@).len() != b@.map_values(|s: String| s@).len());
        return false;
    }
    let mut i: usize = 0;
    while i < a.len()
        invariant
            i <= a.len(),
            a.len() == b.len(),
            forall|j: int| 0 <= j < i ==> a@[j]@ == b@[j]@,
        decreases a.len() - i,
    {
        if a[i] != b[i] {
            assert(a@.map_values(|s: String| s@)[i as int] != b@.map_values(|s: String| s@)[i as int]);
            return false;
        }
        i = i + 1;
    }
    assert(a@.map_values(|s: String| s@) =~= b@.map_values(|s: String| s@));
    true
}

impl Frame {
    /// Whether there is nothing to draw.
    pub fn is_empty(&self) -> (r: bool)
        ensures
            r == frame_is_empty(self@),
    {
        self.preedit.as_str().is_empty() && self.candidates.len() == 0
    }

    /// A copy of this frame.
    pub fn duplicate(&self) -> (r: Frame)
        ensures
            r@ == self@,
    {
        Frame {
            preedit: self.preedit.clone(),
            cursor: self.cursor,
            candidates: clone_strings(&self.candidates),
        }
    }

    /// Whether two frames draw the same thing.
    pub fn same_as(&self, other: &Frame) -> (r: bool)
        ensures
            r == (self@ == other@),
    {
        let same = self.preedit == other.preedit && self.cursor == other.cursor && strings_equal(
            &self.candidates,
            &other.candidates,
        );
        proof {
            if same {
                assert(self@ =~= other@);
            }
        }
        same
    }
}

} // verus!
