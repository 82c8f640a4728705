//! What the router decides, as functions on its mathematical state: the floating status bar,
//! the candidate window and the voice panel that shares it.
use vstd::prelude::*;

use crate::protocol::{
    frame_is_empty, state_is_active, ColorScheme, FrameView, ScreenRect, SessionId, SnapshotView,
    SyncView, VoiceState,
};
use crate::voice::coordinator::{polled, sync_view, VoiceModel};

verus! {

/// How long the voice panel keeps showing a final message (such as "没有听清").
pub const VOICE_NOTICE_MS: u64 = 2000;

/// The largest clock value the router accepts, so that a notice deadline always fits.
pub const CLOCK_LIMIT_MS: u64 = u64::MAX - VOICE_NOTICE_MS;

/// The router's settings, as values.
pub struct ConfigView {
    pub preedit_in_window: bool,
    pub color_scheme: ColorScheme,
    pub font: Seq<char>,
    pub full_width: bool,
    pub english_full_width: bool,
    pub status_enabled: bool,
    pub shuangpin: Option<Seq<char>>,
    pub status_pos: Option<(i32, i32)>,
}

/// The router's state, as values.
pub struct RouterModel {
    pub config: ConfigView,
    pub focused: Option<SessionId>,
    pub status_session: Option<SessionId>,
    pub status_mode: Option<bool>,
    pub pending_mode: Option<bool>,
    pub voice: VoiceModel,
    pub last_rect: Option<ScreenRect>,
    pub last_shown: Option<(FrameView, ScreenRect)>,
    pub voice_visible: bool,
    pub voice_notice_seen: bool,
    pub voice_notice_until: Option<u64>,
}

/// An operation on the floating status bar.
#[derive(Clone, Copy, Debug, PartialEq, Eq, Structural)]
pub enum StatusEvent {
    /// The mode cell was clicked.
    ToggleMode,
    /// The punctuation cell was clicked.
    TogglePunctuation,
    /// The bar was dragged to a new position.
    Moved(i32, i32),
}

/// One key written back to the configuration file.
#[derive(Clone, Copy, Debug, PartialEq, Eq, Structural)]
pub enum ConfigWrite {
    /// `[general] full_width_punctuation`.
    FullWidth(bool),
    /// `[general] english_full_width_punctuation`.
    EnglishFullWidth(bool),
    /// `[status_bar] x`.
    StatusX(i64),
    /// `[status_bar] y`.
    StatusY(i64),
}

/// What the status bar shows.
pub struct StatusViewModel {
    pub english: bool,
    pub scheme: Option<Seq<char>>,
    pub full_width: bool,
    pub color_scheme: ColorScheme,
    pub anchor: Option<(i32, i32)>,
}

/// What happens to the status bar.
pub enum StatusCommandModel {
    Show(StatusViewModel),
    Hide,
}

/// What the voice panel shows.
pub struct VoiceViewModel {
    pub state: VoiceState,
    pub level: u16,
    pub text: Option<Seq<char>>,
    pub color_scheme: ColorScheme,
}

/// What happens to the candidate window.
pub enum WindowCommandModel {
    /// Leave the window as it is.
    Keep,
    /// Hide it.
    Hide,
    /// Draw this frame next to this rectangle.
    Show(FrameView, ScreenRect),
    /// Turn it into the voice panel next to this rectangle.
    ShowVoice(VoiceViewModel, ScreenRect),
}

/// A window decision, and whether nothing is displayed any more (so that no candidate counts as seen).
pub struct WindowUpdateModel {
    pub cleared: bool,
    pub command: WindowCommandModel,
}

/// The punctuation setting of the given mode: Chinese and English each keep their own.
pub open spec fn full_width_for(c: ConfigView, english: bool) -> bool {
    if english {
        c.english_full_width
    } else {
        c.full_width
    }
}

/// A text service reports its mode: the bar shows it and belongs to that session; a click the
/// previous owner did not pick up is dropped.
pub open spec fn mode_changed(m: RouterModel, session: SessionId, english: bool) -> RouterModel {
    let owned = if m.status_session != Some(session) {
        RouterModel { pending_mode: None, status_session: Some(session), ..m }
    } else {
        m
    };
    RouterModel { status_mode: Some(english), ..owned }
}

/// The user switched to another input method: the bar has no mode, no owner, no pending click.
pub open spec fn ime_switched(m: RouterModel) -> RouterModel {
    RouterModel { status_mode: None, status_session: None, pending_mode: None, ..m }
}

/// A key landed in `session`: the bar now belongs to it.
pub open spec fn status_claimed(m: RouterModel, session: SessionId) -> RouterModel {
    if m.status_session == Some(session) {
        m
    } else {
        RouterModel { status_session: Some(session), pending_mode: None, ..m }
    }
}

/// The owning session closed: its pending click is dropped, the bar itself stays.
pub open spec fn status_forgotten(m: RouterModel, session: SessionId) -> RouterModel {
    if m.status_session == Some(session) {
        RouterModel { status_session: None, pending_mode: None, ..m }
    } else {
        m
    }
}

/// The pending mode a session may take: only the owner gets it.
pub open spec fn pending_for(m: RouterModel, session: SessionId) -> Option<bool> {
    if m.status_session == Some(session) {
        m.pending_mode
    } else {
        None
    }
}

/// The state after `session` asked for the pending mode.
pub open spec fn pending_taken(m: RouterModel, session: SessionId) -> RouterModel {
    if m.status_session == Some(session) {
        RouterModel { pending_mode: None, ..m }
    } else {
        m
    }
}

/// Whether a punctuation click applies to the English setting: only when the bar shows English.
pub open spec fn punctuation_english(m: RouterModel) -> bool {
    m.status_mode == Some(true)
}

/// The state after a status bar event.
pub open spec fn status_event_applied(m: RouterModel, event: StatusEvent) -> RouterModel {
    match event {
        StatusEvent::ToggleMode => match m.status_mode {
            None => m,
            Some(english) => RouterModel {
                pending_mode: Some(!english),
                status_mode: Some(!english),
                ..m
            },
        },
        StatusEvent::TogglePunctuation => {
            let english = punctuation_english(m);
            let full_width = !full_width_for(m.config, english);
            if english {
                RouterModel {
                    config: ConfigView { english_full_width: full_width, ..m.config },
                    ..m
                }
            } else {
                RouterModel { config: ConfigView { full_width: full_width, ..m.config }, ..m }
            }
        },
        StatusEvent::Moved(x, y) => RouterModel {
            config: ConfigView { status_pos: Some((x, y)), ..m.config },
            ..m
        },
    }
}

/// The keys a status bar event writes back to the configuration file, in order.
pub open spec fn status_event_writes(m: RouterModel, event: StatusEvent) -> Seq<ConfigWrite> {
    match event {
        StatusEvent::ToggleMode => Seq::empty(),
        StatusEvent::TogglePunctuation => {
            let english = punctuation_english(m);
            let full_width = !full_width_for(m.config, english);
            if english {
                seq![ConfigWrite::EnglishFullWidth(full_width)]
            } else {
                seq![ConfigWrite::FullWidth(full_width)]
            }
        },
        StatusEvent::Moved(x, y) => seq![ConfigWrite::StatusX(x as i64), ConfigWrite::StatusY(y as i64)],
    }
}

/// Whether a status bar event redraws the bar: a mode click before any mode is known does nothing.
pub open spec fn status_event_redraws(m: RouterModel, event: StatusEvent) -> bool {
    !(event == StatusEvent::ToggleMode && m.status_mode is None)
}

/// The bar is shown when it is enabled and a mode is known, otherwise hidden.
pub open spec fn status_command(m: RouterModel) -> StatusCommandModel {
    match m.status_mode {
        Some(english) => if m.config.status_enabled {
            StatusCommandModel::Show(
                StatusViewModel {
                    english,
                    scheme: m.config.shuangpin,
                    full_width: full_width_for(m.config, english),
                    color_scheme: m.config.color_scheme,
                    anchor: m.config.status_pos,
                },
            )
        } else {
            StatusCommandModel::Hide
        },
        None => StatusCommandModel::Hide,
    }
}

/// The frame the window draws: when the pinyin goes only inline, its line is taken out (the
/// candidates are still drawn).
pub open spec fn window_frame(c: ConfigView, f: FrameView) -> FrameView {
    if c.preedit_in_window {
        f
    } else {
        FrameView { preedit: Seq::empty(), cursor: 0, ..f }
    }
}

/// The generic way to close the window; while a voice recording is active it is ignored, so that
/// late hides from the ordinary candidate life cycle cannot close the voice panel.
pub open spec fn hidden(m: RouterModel) -> (RouterModel, WindowCommandModel) {
    if state_is_active(m.voice.state) {
        (m, WindowCommandModel::Keep)
    } else {
        (
            RouterModel { last_rect: None, last_shown: None, voice_visible: false, ..m },
            WindowCommandModel::Hide,
        )
    }
}

/// The text the voice panel shows while active: the final result, else the partial transcript.
pub open spec fn voice_text(sync: SyncView) -> Option<Seq<char>> {
    match sync.delivery {
        Some(d) => Some(d.text),
        None => sync.partial,
    }
}

/// Turning the candidate window into the voice panel (or back) for `session` given `sync`.
pub open spec fn voice_reconciled(m: RouterModel, session: SessionId, sync: SyncView, now: u64) -> (
    RouterModel,
    WindowCommandModel,
) {
    let owns = m.voice.session == Some(session);
    if owns && state_is_active(sync.state) {
        match m.last_rect {
            Some(rect) => (
                RouterModel { voice_visible: true, last_shown: None, ..m },
                WindowCommandModel::ShowVoice(
                    VoiceViewModel {
                        state: sync.state,
                        level: sync.level,
                        text: voice_text(sync),
                        color_scheme: m.config.color_scheme,
                    },
                    rect,
                ),
            ),
            None => (m, WindowCommandModel::Keep),
        }
    } else if (owns || m.voice_visible) && sync.message is Some {
        let n = if !m.voice_notice_seen {
            RouterModel {
                voice_notice_seen: true,
                voice_notice_until: Some((now + VOICE_NOTICE_MS) as u64),
                ..m
            }
        } else {
            m
        };
        if n.voice_notice_until is Some && now < n.voice_notice_until.unwrap() {
            match n.last_rect {
                Some(rect) => (
                    RouterModel { voice_visible: true, ..n },
                    WindowCommandModel::ShowVoice(
                        VoiceViewModel {
                            state: sync.state,
                            level: 0,
                            text: sync.message,
                            color_scheme: n.config.color_scheme,
                        },
                        rect,
                    ),
                ),
                None => (n, WindowCommandModel::Keep),
            }
        } else {
            hidden(n)
        }
    } else if m.voice_visible {
        hidden(m)
    } else {
        (m, WindowCommandModel::Keep)
    }
}

/// The voice path of a reconciliation: poll the coordinator (with `poll` as the backend's
/// answer), then reconcile the panel for `session`.
pub open spec fn voice_refreshed(
    m: RouterModel,
    session: SessionId,
    now: u64,
    poll: Result<SnapshotView, Seq<char>>,
) -> (RouterModel, WindowUpdateModel) {
    let v = polled(m.voice, now, poll);
    let r = voice_reconciled(RouterModel { voice: v, ..m }, session, sync_view(v, session), now);
    (r.0, WindowUpdateModel { cleared: false, command: r.1 })
}

/// Whether the focused session owns the voice recording.
pub open spec fn focused_owns_voice(m: RouterModel) -> bool {
    m.focused is Some && m.voice.session == m.focused
}

/// Redrawing the candidate window for `frame`: an empty frame closes it; a non-empty one is drawn
/// once the caret rectangle is known, and only when it differs from what is already shown.
pub open spec fn candidates_reconciled(
    m: RouterModel,
    frame: FrameView,
    now: u64,
    poll: Result<SnapshotView, Seq<char>>,
) -> (RouterModel, WindowUpdateModel) {
    if focused_owns_voice(m) {
        voice_refreshed(m, m.focused.unwrap(), now, poll)
    } else {
        let shown = window_frame(m.config, frame);
        if frame_is_empty(shown) {
            let h = hidden(m);
            (h.0, WindowUpdateModel { cleared: true, command: h.1 })
        } else {
            match m.last_rect {
                Some(rect) => if m.last_shown == Some((shown, rect)) {
                    (m, WindowUpdateModel { cleared: false, command: WindowCommandModel::Keep })
                } else {
                    (
                        RouterModel { last_shown: Some((shown, rect)), ..m },
                        WindowUpdateModel {
                            cleared: false,
                            command: WindowCommandModel::Show(shown, rect),
                        },
                    )
                },
                None => (m, WindowUpdateModel { cleared: false, command: WindowCommandModel::Keep }),
            }
        }
    }
}

/// The caret rectangle of `session` arrived: only the focused session moves the window.
pub open spec fn positioned(
    m: RouterModel,
    session: SessionId,
    rect: ScreenRect,
    frame: FrameView,
    now: u64,
    poll: Result<SnapshotView, Seq<char>>,
) -> (RouterModel, WindowUpdateModel) {
    if m.focused != Some(session) {
        (m, WindowUpdateModel { cleared: false, command: WindowCommandModel::Keep })
    } else {
        let p = RouterModel { last_rect: Some(rect), ..m };
        if p.voice.session == Some(session) {
            voice_refreshed(p, session, now, poll)
        } else {
            candidates_reconciled(p, frame, now, poll)
        }
    }
}

} // verus!

verus! {

/// What applying new settings asks of the windows.
pub struct ConfigAppliedModel {
    /// The candidate window's new font, when it changed.
    pub set_font: Option<Seq<char>>,
    /// The candidate window's redraw, when the font or the color scheme changed.
    pub window: Option<WindowUpdateModel>,
    /// The status bar's new look.
    pub status: StatusCommandModel,
}

/// Applying new settings `c`: a font change is passed on to the window; a font or color change
/// forgets what was drawn and redraws `frame`; the status bar is brought in line either way.
pub open spec fn config_applied(
    m: RouterModel,
    c: ConfigView,
    frame: FrameView,
    now: u64,
    poll: Result<SnapshotView, Seq<char>>,
) -> (RouterModel, ConfigAppliedModel) {
    let font_changed = c.font != m.config.font;
    let redraw = font_changed || c.color_scheme != m.config.color_scheme;
    let n = RouterModel { config: c, ..m };
    if redraw {
        let r = candidates_reconciled(RouterModel { last_shown: None, ..n }, frame, now, poll);
        (
            r.0,
            ConfigAppliedModel {
                set_font: if font_changed {
                    Some(c.font)
                } else {
                    None
                },
                window: Some(r.1),
                status: status_command(r.0),
            },
        )
    } else {
        (n, ConfigAppliedModel { set_font: None, window: None, status: status_command(n) })
    }
}

} // verus!
