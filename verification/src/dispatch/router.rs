//! The router's window and status bookkeeping. The router does not draw: each operation returns
//! what the candidate window or the status bar should do, and the caller hands that to the UI thread.
use vstd::prelude::*;

use crate::dispatch::model::{
    candidates_reconciled, config_applied, full_width_for, ConfigAppliedModel, hidden, ime_switched, mode_changed, pending_for,
    pending_taken, positioned, status_claimed, status_command, status_event_applied,
    status_event_redraws, status_event_writes, status_forgotten, voice_reconciled, window_frame,
    ConfigView, ConfigWrite, RouterModel, StatusCommandModel, StatusEvent, StatusViewModel,
    VoiceViewModel, WindowCommandModel, WindowUpdateModel, CLOCK_LIMIT_MS, VOICE_NOTICE_MS,
};
use crate::protocol::{
    clone_opt_string, opt_view, ColorScheme, Frame, FrameView, ScreenRect, SessionId,
    SnapshotView, VoiceAction, VoiceState, VoiceSync, VoiceTrigger,
};
use crate::voice::backend::VoiceBackend;
use crate::voice::coordinator::{
    acked, configured, configured_failure, disabled, handled, last_start, polled, sync_view, voice_inv,
    VoiceCoordinator,
};

verus! {

/// The router's settings.
pub struct RouterConfig {
    /// `[general] preedit` puts the pinyin line in the candidate window too.
    pub preedit_in_window: bool,
    pub color_scheme: ColorScheme,
    pub font: String,
    /// Chinese-mode punctuation becomes full width.
    pub full_width: bool,
    /// English-mode punctuation becomes full width.
    pub english_full_width: bool,
    /// The floating status bar is enabled.
    pub status_enabled: bool,
    /// The key of the double-pinyin scheme, if one is on.
    pub shuangpin: Option<String>,
    /// Where the user dragged the status bar.
    pub status_pos: Option<(i32, i32)>,
}

impl View for RouterConfig {
    type V = ConfigView;

    open spec fn view(&self) -> ConfigView {
        ConfigView {
            preedit_in_window: self.preedit_in_window,
            color_scheme: self.color_scheme,
            font: self.font@,
            full_width: self.full_width,
            english_full_width: self.english_full_width,
            status_enabled: self.status_enabled,
            shuangpin: opt_view(self.shuangpin),
            status_pos: self.status_pos,
        }
    }
}

/// What the status bar shows.
#[derive(Debug)]
pub struct StatusView {
    pub english: bool,
    pub scheme: Option<String>,
    pub full_width: bool,
    pub color_scheme: ColorScheme,
    pub anchor: Option<(i32, i32)>,
}

impl View for StatusView {
    type V = StatusViewModel;

    open spec fn view(&self) -> StatusViewModel {
        StatusViewModel {
            english: self.english,
            scheme: opt_view(self.scheme),
            full_width: self.full_width,
            color_scheme: self.color_scheme,
            anchor: self.anchor,
        }
    }
}

/// What happens to the status bar.
#[derive(Debug)]
pub enum StatusCommand {
    Show(StatusView),
    Hide,
}

impl View for StatusCommand {
    type V = StatusCommandModel;

    open spec fn view(&self) -> StatusCommandModel {
        match self {
            StatusCommand::Show(v) => StatusCommandModel::Show(v@),
            StatusCommand::Hide => StatusCommandModel::Hide,
        }
    }
}

/// The outcome of a status bar event: the configuration keys to write back, in order, and the
/// new look of the bar (`None`: leave it alone).
#[derive(Debug)]
pub struct StatusEventOutcome {
    pub writes: Vec<ConfigWrite>,
    pub status: Option<StatusCommand>,
}

/// What the candidate window shows when it is the voice panel.
#[derive(Clone, Debug, PartialEq, Eq)]
pub struct VoiceView {
    pub state: VoiceState,
    pub level: u16,
    pub text: Option<String>,
    pub color_scheme: ColorScheme,
}

impl View for VoiceView {
    type V = VoiceViewModel;

    open spec fn view(&self) -> VoiceViewModel {
        VoiceViewModel {
            state: self.state,
            level: self.level,
            text: opt_view(self.text),
            color_scheme: self.color_scheme,
        }
    }
}

/// What happens to the candidate window.
#[derive(Debug)]
pub enum WindowCommand {
    Keep,
    Hide,
    Show(Frame, ScreenRect),
    ShowVoice(VoiceView, ScreenRect),
}

impl View for WindowCommand {
    type V = WindowCommandModel;

    open spec fn view(&self) -> WindowCommandModel {
        match self {
            WindowCommand::Keep => WindowCommandModel::Keep,
            WindowCommand::Hide => WindowCommandModel::Hide,
            WindowCommand::Show(f, r) => WindowCommandModel::Show(f@, *r),
            WindowCommand::ShowVoice(v, r) => WindowCommandModel::ShowVoice(v@, *r),
        }
    }
}

/// A window decision; `cleared` says nothing is displayed any more, so no candidate counts as seen
/// (when a frame is shown, its candidates are the ones seen).
#[derive(Debug)]
pub struct WindowUpdate {
    pub cleared: bool,
    pub command: WindowCommand,
}

impl View for WindowUpdate {
    type V = WindowUpdateModel;

    open spec fn view(&self) -> WindowUpdateModel {
        WindowUpdateModel { cleared: self.cleared, command: self.command@ }
    }
}

/// What applying new settings asks of the windows.
#[derive(Debug)]
pub struct ConfigApplied {
    pub set_font: Option<String>,
    pub window: Option<WindowUpdate>,
    pub status: StatusCommand,
}

impl View for ConfigApplied {
    type V = ConfigAppliedModel;

    open spec fn view(&self) -> ConfigAppliedModel {
        ConfigAppliedModel {
            set_font: opt_view(self.set_font),
            window: match self.window {
                Some(w) => Some(w@),
                None => None,
            },
            status: self.status@,
        }
    }
}

/// The view of what was last drawn.
pub open spec fn shown_view(o: Option<(Frame, ScreenRect)>) -> Option<(FrameView, ScreenRect)> {
    match o {
        Some((f, r)) => Some((f@, r)),
        None => None,
    }
}

/// The protocol router's state for the status bar, the candidate window and voice input.
pub struct Router<B> {
    config: RouterConfig,
    focused: Option<SessionId>,
    status_session: Option<SessionId>,
    status_mode: Option<bool>,
    pending_mode: Option<bool>,
    voice: VoiceCoordinator<B>,
    last_rect: Option<ScreenRect>,
    last_shown: Option<(Frame, ScreenRect)>,
    voice_visible: bool,
    voice_notice_seen: bool,
    voice_notice_until: Option<u64>,
}

impl<B: VoiceBackend> View for Router<B> {
    type V = RouterModel;

    closed spec fn view(&self) -> RouterModel {
        RouterModel {
            config: self.config@,
            focused: self.focused,
            status_session: self.status_session,
            status_mode: self.status_mode,
            pending_mode: self.pending_mode,
            voice: self.voice@,
            last_rect: self.last_rect,
            last_shown: shown_view(self.last_shown),
            voice_visible: self.voice_visible,
            voice_notice_seen: self.voice_notice_seen,
            voice_notice_until: self.voice_notice_until,
        }
    }
}

fn same_session(a: Option<SessionId>, b: SessionId) -> (r: bool)
    ensures
        r == (a == Some(b)),
{
    match a {
        Some(a) => a.0 == b.0,
        None => false,
    }
}

impl<B: VoiceBackend> Router<B> {
    /// A router with `config` and the voice coordinator `voice`; nothing focused, nothing shown.
    pub fn new(config: RouterConfig, voice: VoiceCoordinator<B>) -> (r: Self)
        ensures
            r@ == (RouterModel {
                config: config@,
                focused: None,
                status_session: None,
                status_mode: None,
                pending_mode: None,
                voice: voice@,
                last_rect: None,
                last_shown: None,
                voice_visible: false,
                voice_notice_seen: false,
                voice_notice_until: None,
            }),
    {
        Router {
            config,
            focused: None,
            status_session: None,
            status_mode: None,
            pending_mode: None,
            voice,
            last_rect: None,
            last_shown: None,
            voice_visible: false,
            voice_notice_seen: false,
            voice_notice_until: None,
        }
    }

    /// Records which session has the keyboard focus.
    pub fn set_focus(&mut self, session: Option<SessionId>)
        ensures
            final(self)@ == (RouterModel { focused: session, ..old(self)@ }),
    {
        self.focused = session;
    }

    /// The voice coordinator.
    pub fn voice(&self) -> (r: &VoiceCoordinator<B>)
        ensures
            r@ == self@.voice,
    {
        &self.voice
    }

    /// Installs a voice backend for `trigger`.
    pub fn configure_voice(&mut self, trigger: VoiceTrigger, backend: B, now: u64)
        ensures
            voice_inv(old(self)@.voice) ==> voice_inv(final(self)@.voice),
            final(self)@ == (RouterModel {
                voice: configured(old(self)@.voice, trigger, now),
                ..old(self)@
            }),
    {
        self.voice.configure(trigger, backend, now);
    }

    /// Voice input is wanted for `trigger` but its worker could not be started.
    pub fn configure_voice_failure(&mut self, trigger: VoiceTrigger, message: String, now: u64)
        ensures
            voice_inv(old(self)@.voice) ==> voice_inv(final(self)@.voice),
            final(self)@ == (RouterModel {
                voice: configured_failure(old(self)@.voice, trigger, message@, now),
                ..old(self)@
            }),
    {
        self.voice.configure_failure(trigger, message, now);
    }

    /// Turns voice input off.
    pub fn disable_voice(&mut self, now: u64)
        ensures
            voice_inv(old(self)@.voice) ==> voice_inv(final(self)@.voice),
            final(self)@ == (RouterModel { voice: disabled(old(self)@.voice, now), ..old(self)@ }),
    {
        self.voice.disable(now);
    }

    /// A voice shortcut action from `session`. Where the backend was asked to start or stop, its
    /// answer is the last of the coordinator's `answers`, and decides the new voice state.
    pub fn handle_voice(&mut self, session: SessionId, action: VoiceAction, now: u64)
        ensures
            voice_inv(old(self)@.voice) ==> voice_inv(final(self)@.voice),
            exists|o: Result<(), Seq<char>>| #[trigger]
                handled(old(self)@.voice, session, action, now, o) == final(self)@.voice,
            final(self)@.voice.calls == handled(old(self)@.voice, session, action, now, Ok(())).calls,
            final(self)@.voice.answers.len() == old(self)@.voice.answers.len() ==> final(self)@.voice
                == handled(old(self)@.voice, session, action, now, Ok(())),
            final(self)@.voice.answers.len() != old(self)@.voice.answers.len() ==> final(self)@.voice
                == handled(old(self)@.voice, session, action, now, final(self)@.voice.answers.last()),
            final(self)@ == (RouterModel { voice: final(self)@.voice, ..old(self)@ }),
    {
        self.voice.handle(session, action, now);
    }

    /// `session` acknowledges that the result of `request` is in its document.
    pub fn ack_voice(&mut self, session: SessionId, request: u64, now: u64)
        ensures
            voice_inv(old(self)@.voice) ==> voice_inv(final(self)@.voice),
            final(self)@ == (RouterModel {
                voice: acked(old(self)@.voice, session, request, now),
                ..old(self)@
            }),
    {
        self.voice.ack(session, request, now);
    }

    /// Polls voice input for `session`.
    pub fn sync_voice(&mut self, session: SessionId, now: u64) -> (r: VoiceSync)
        ensures
            voice_inv(old(self)@.voice) ==> voice_inv(final(self)@.voice),
            exists|o: Result<SnapshotView, Seq<char>>| #[trigger]
                polled(old(self)@.voice, now, o) == final(self)@.voice,
            final(self)@.voice.calls == polled(old(self)@.voice, now, Err(Seq::empty())).calls,
            final(self)@ == (RouterModel { voice: final(self)@.voice, ..old(self)@ }),
            r@ == sync_view(final(self)@.voice, session),
            voice_inv(old(self)@.voice) ==> (r@.delivery matches Some(d) ==> final(self)@.voice.request
                == Some(d.request) && last_start(final(self)@.voice.calls) == Some(d.request)),
    {
        self.voice.sync(session, now)
    }

    /// A text service reports its mode; the bar shows it and belongs to that session.
    pub fn handle_mode_changed(&mut self, session: SessionId, english: bool) -> (r: StatusCommand)
        ensures
            final(self)@ == mode_changed(old(self)@, session, english),
            r@ == status_command(final(self)@),
    {
        if !same_session(self.status_session, session) {
            self.pending_mode = None;
            self.status_session = Some(session);
        }
        self.status_mode = Some(english);
        self.reconcile_status()
    }

    /// The user switched to another input method: the bar goes away.
    pub fn handle_ime_switched(&mut self) -> (r: StatusCommand)
        ensures
            final(self)@ == ime_switched(old(self)@),
            r@ == status_command(final(self)@),
    {
        self.status_mode = None;
        self.status_session = None;
        self.pending_mode = None;
        self.reconcile_status()
    }

    /// A key landed in `session`: the user really types there, so the bar belongs to it.
    pub fn claim_status_session(&mut self, session: SessionId)
        ensures
            final(self)@ == status_claimed(old(self)@, session),
    {
        if same_session(self.status_session, session) {
            return;
        }
        self.status_session = Some(session);
        self.pending_mode = None;
    }

    /// The owning session went away: its pending click is dropped, the bar stays.
    pub fn forget_status_session(&mut self, session: SessionId)
        ensures
            final(self)@ == status_forgotten(old(self)@, session),
    {
        if same_session(self.status_session, session) {
            self.status_session = None;
            self.pending_mode = None;
        }
    }

    /// The mode the bar was clicked to, for the owning session only; taking it clears it.
    pub fn take_pending_mode(&mut self, session: SessionId) -> (r: Option<bool>)
        ensures
            r == pending_for(old(self)@, session),
            final(self)@ == pending_taken(old(self)@, session),
    {
        if !same_session(self.status_session, session) {
            return None;
        }
        self.pending_mode.take()
    }

    /// An operation on the status bar: a mode click flips the bar at once and leaves the target
    /// mode for the owning session to pick up; a punctuation click flips the current mode's setting;
    /// a drag moves the bar. Settings changes come back as keys to write to the configuration file.
    pub fn handle_status_event(&mut self, event: StatusEvent) -> (r: StatusEventOutcome)
        ensures
            final(self)@ == status_event_applied(old(self)@, event),
            r.writes@ == status_event_writes(old(self)@, event),
            r.status is Some == status_event_redraws(old(self)@, event),
            r.status is Some ==> r.status.unwrap()@ == status_command(final(self)@),
    {
        let mut writes: Vec<ConfigWrite> = Vec::new();
        match event {
            StatusEvent::ToggleMode => {
                let english = match self.status_mode {
                    Some(english) => english,
                    None => {
                        return StatusEventOutcome { writes, status: None };
                    },
                };
                self.pending_mode = Some(!english);
                self.status_mode = Some(!english);
                assert(writes@ =~= status_event_writes(old(self)@, event));
            },
            StatusEvent::TogglePunctuation => {
                let english = match self.status_mode {
                    Some(mode) => mode,
                    None => false,
                };
                let full_width = !self.full_width_for(english);
                if english {
                    self.config.english_full_width = full_width;
                    writes.push(ConfigWrite::EnglishFullWidth(full_width));
                } else {
                    self.config.full_width = full_width;
                    writes.push(ConfigWrite::FullWidth(full_width));
                }
                assert(writes@ =~= status_event_writes(old(self)@, event));
            },
            StatusEvent::Moved(x, y) => {
                self.config.status_pos = Some((x, y));
                writes.push(ConfigWrite::StatusX(x as i64));
                writes.push(ConfigWrite::StatusY(y as i64));
                assert(writes@ =~= status_event_writes(old(self)@, event));
            },
        }
        let status = self.reconcile_status();
        StatusEventOutcome { writes, status: Some(status) }
    }

    /// Whether punctuation becomes full width in the given mode.
    pub fn full_width_for(&self, english: bool) -> (r: bool)
        ensures
            r == full_width_for(self@.config, english),
    {
        if english {
            self.config.english_full_width
        } else {
            self.config.full_width
        }
    }

    /// The bar is shown when it is enabled and a mode is known, otherwise hidden.
    pub fn reconcile_status(&self) -> (r: StatusCommand)
        ensures
            r@ == status_command(self@),
    {
        match self.status_mode {
            Some(english) => {
                if self.config.status_enabled {
                    StatusCommand::Show(
                        StatusView {
                            english,
                            scheme: clone_opt_string(&self.config.shuangpin),
                            full_width: self.full_width_for(english),
                            color_scheme: self.config.color_scheme,
                            anchor: self.config.status_pos,
                        },
                    )
                } else {
                    StatusCommand::Hide
                }
            },
            None => StatusCommand::Hide,
        }
    }

    /// The frame the window draws for `frame`: without the pinyin line when the pinyin goes inline only.
    pub fn window_frame(&self, frame: &Frame) -> (r: Frame)
        ensures
            r@ == window_frame(self@.config, frame@),
    {
        if self.config.preedit_in_window {
            return frame.duplicate();
        }
        let mut shown = frame.duplicate();
        shown.preedit = String::new();
        shown.cursor = 0;
        shown
    }

    /// Closes the candidate window, unless an active voice recording owns it.
    pub fn hide_candidate_window(&mut self) -> (r: WindowCommand)
        ensures
            voice_inv(old(self)@.voice) ==> voice_inv(final(self)@.voice),
            (final(self)@, r@) == hidden(old(self)@),
    {
        if self.voice.is_active() {
            return WindowCommand::Keep;
        }
        self.last_rect = None;
        self.last_shown = None;
        self.voice_visible = false;
        WindowCommand::Hide
    }

    /// Brings the candidate window in line with `frame`; when the focused session owns the voice
    /// recording, the voice panel is refreshed instead.
    pub fn reconcile_candidates(&mut self, frame: &Frame, now: u64) -> (r: WindowUpdate)
        requires
            now <= CLOCK_LIMIT_MS,
        ensures
            voice_inv(old(self)@.voice) ==> voice_inv(final(self)@.voice),
            exists|o: Result<SnapshotView, Seq<char>>| #[trigger]
                candidates_reconciled(old(self)@, frame@, now, o) == (final(self)@, r@),
    {
        if let Some(session) = self.focused {
            if self.voice.owns(session) {
                let sync = self.voice.sync(session, now);
                let ghost o = choose|o: Result<SnapshotView, Seq<char>>|
                    #[trigger] polled(old(self)@.voice, now, o) == self@.voice;
                let command = self.reconcile_voice(session, &sync, now);
                let r = WindowUpdate { cleared: false, command };
                assert(candidates_reconciled(old(self)@, frame@, now, o) == (self@, r@));
                return r;
            }
        }
        let ghost any: Result<SnapshotView, Seq<char>> = Err(Seq::empty());
        let shown = self.window_frame(frame);
        if shown.is_empty() {
            let command = self.hide_candidate_window();
            let r = WindowUpdate { cleared: true, command };
            assert(candidates_reconciled(old(self)@, frame@, now, any) == (self@, r@));
            return r;
        }
        let rect = match self.last_rect {
            Some(rect) => rect,
            None => {
                let r = WindowUpdate { cleared: false, command: WindowCommand::Keep };
                assert(candidates_reconciled(old(self)@, frame@, now, any) == (self@, r@));
                return r;
            },
        };
        let unchanged = match &self.last_shown {
            Some((f, r)) => f.same_as(&shown) && *r == rect,
            None => false,
        };
        if unchanged {
            let r = WindowUpdate { cleared: false, command: WindowCommand::Keep };
            assert(candidates_reconciled(old(self)@, frame@, now, any) == (self@, r@));
            return r;
        }
        self.last_shown = Some((shown.duplicate(), rect));
        let r = WindowUpdate { cleared: false, command: WindowCommand::Show(shown, rect) };
        assert(candidates_reconciled(old(self)@, frame@, now, any) == (self@, r@));
        r
    }

    /// The caret rectangle of `session` arrived with the session's current `frame`.
    pub fn position_candidates(
        &mut self,
        session: SessionId,
        rect: ScreenRect,
        frame: &Frame,
        now: u64,
    ) -> (r: WindowUpdate)
        requires
            now <= CLOCK_LIMIT_MS,
        ensures
            voice_inv(old(self)@.voice) ==> voice_inv(final(self)@.voice),
            exists|o: Result<SnapshotView, Seq<char>>| #[trigger]
                positioned(old(self)@, session, rect, frame@, now, o) == (final(self)@, r@),
    {
        if !same_session(self.focused, session) {
            let r = WindowUpdate { cleared: false, command: WindowCommand::Keep };
            assert(positioned(old(self)@, session, rect, frame@, now, Err(Seq::empty())) == (
            self@, r@));
            return r;
        }
        self.last_rect = Some(rect);
        let ghost p = self@;
        if self.voice.owns(session) {
            let sync = self.voice.sync(session, now);
            let ghost o = choose|o: Result<SnapshotView, Seq<char>>|
                #[trigger] polled(p.voice, now, o) == self@.voice;
            let command = self.reconcile_voice(session, &sync, now);
            let r = WindowUpdate { cleared: false, command };
            assert(positioned(old(self)@, session, rect, frame@, now, o) == (self@, r@));
            return r;
        }
        let r = self.reconcile_candidates(frame, now);
        let ghost o = choose|o: Result<SnapshotView, Seq<char>>|
            #[trigger] candidates_reconciled(p, frame@, now, o) == (self@, r@);
        assert(positioned(old(self)@, session, rect, frame@, now, o) == (self@, r@));
        r
    }

    /// Turns the candidate window into the voice panel for `session` (in place, no second
    /// window), shows a final message for a short while, and closes the panel afterwards.
    pub fn reconcile_voice(&mut self, session: SessionId, sync: &VoiceSync, now: u64) -> (r:
        WindowCommand)
        requires
            now <= CLOCK_LIMIT_MS,
        ensures
            voice_inv(old(self)@.voice) ==> voice_inv(final(self)@.voice),
            (final(self)@, r@) == voice_reconciled(old(self)@, session, sync@, now),
    {
        let owns = self.voice.owns(session);
        if owns && sync.is_active() {
            return match self.last_rect {
                Some(rect) => {
                    let text = match &sync.delivery {
                        Some(delivery) => Some(delivery.text.clone()),
                        None => clone_opt_string(&sync.partial),
                    };
                    self.voice_visible = true;
                    self.last_shown = None;
                    WindowCommand::ShowVoice(
                        VoiceView {
                            state: sync.state,
                            level: sync.level,
                            text,
                            color_scheme: self.config.color_scheme,
                        },
                        rect,
                    )
                },
                None => WindowCommand::Keep,
            };
        }
        if (owns || self.voice_visible) && sync.message.is_some() {
            if !self.voice_notice_seen {
                self.voice_notice_seen = true;
                self.voice_notice_until = Some(now + VOICE_NOTICE_MS);
            }
            let showing = match self.voice_notice_until {
                Some(deadline) => now < deadline,
                None => false,
            };
            if showing {
                return match self.last_rect {
                    Some(rect) => {
                        self.voice_visible = true;
                        WindowCommand::ShowVoice(
                            VoiceView {
                                state: sync.state,
                                level: 0,
                                text: clone_opt_string(&sync.message),
                                color_scheme: self.config.color_scheme,
                            },
                            rect,
                        )
                    },
                    None => WindowCommand::Keep,
                };
            }
            return self.hide_candidate_window();
        }
        if self.voice_visible {
            return self.hide_candidate_window();
        }
        WindowCommand::Keep
    }

    /// Applies new settings; `frame` is the focused session's current frame, redrawn when the
    /// font or the color scheme changed.
    pub fn apply_config(&mut self, config: RouterConfig, frame: &Frame, now: u64) -> (r:
        ConfigApplied)
        requires
            now <= CLOCK_LIMIT_MS,
        ensures
            voice_inv(old(self)@.voice) ==> voice_inv(final(self)@.voice),
            exists|o: Result<SnapshotView, Seq<char>>| #[trigger]
                config_applied(old(self)@, config@, frame@, now, o) == (final(self)@, r@),
    {
        let font_changed = config.font != self.config.font;
        let redraw = font_changed || config.color_scheme != self.config.color_scheme;
        self.config = config;
        if !redraw {
            let status = self.reconcile_status();
            let r = ConfigApplied { set_font: None, window: None, status };
            assert(config_applied(old(self)@, config@, frame@, now, Err(Seq::empty())) == (
            self@, r@));
            return r;
        }
        let set_font = if font_changed {
            Some(self.config.font.clone())
        } else {
            None
        };
        self.last_shown = None;
        let ghost n = self@;
        let window = self.reconcile_candidates(frame, now);
        let ghost o = choose|o: Result<SnapshotView, Seq<char>>|
            #[trigger] candidates_reconciled(n, frame@, now, o) == (self@, window@);
        let status = self.reconcile_status();
        let r = ConfigApplied { set_font, window: Some(window), status };
        assert(config_applied(old(self)@, config@, frame@, now, o) == (self@, r@));
        r
    }
}

} // verus!
