//! The outputs the router's decisions go to: the UI thread implements them; the no-op ones draw nothing.
use vstd::prelude::*;

use crate::dispatch::router::{StatusView, VoiceView};
use crate::protocol::{Frame, ScreenRect};

verus! {

/// Draws the candidate window. Nothing is promised of an implementation.
pub trait CandidateSink {
    /// Places the window below `rect` (the composition's screen rectangle) and draws `frame`.
    fn show(&self, frame: Frame, rect: ScreenRect);

    /// Turns the same window into the voice panel next to the caret.
    fn show_voice(&self, view: VoiceView, rect: ScreenRect);

    /// Takes the window off the screen.
    fn hide_window(&self);

    /// Changes the window's font; called when installed and when the setting changed.
    fn set_font(&self, font: String);
}

/// Draws the floating status bar. Nothing is promised of an implementation.
pub trait StatusSink {
    /// Draws the bar as `view` says.
    fn show_status(&self, view: StatusView);

    /// Takes the bar off the screen.
    fn hide_status(&self);
}

/// A candidate window that draws nothing.
pub struct NoopSink;

impl CandidateSink for NoopSink {
    fn show(&self, _frame: Frame, _rect: ScreenRect) {
    }

    fn show_voice(&self, _view: VoiceView, _rect: ScreenRect) {
    }

    fn hide_window(&self) {
    }

    fn set_font(&self, _font: String) {
    }
}

/// A status bar that draws nothing.
pub struct NoopStatusSink;

impl StatusSink for NoopStatusSink {
    fn show_status(&self, _view: StatusView) {
    }

    fn hide_status(&self) {
    }
}

} // verus!
