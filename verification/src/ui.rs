//! What the candidate window draws when it is the voice panel: a short scrolling history of input
//! levels, a title, the transcript and a hint.
pub mod row;

use vstd::prelude::*;

use crate::dispatch::router::VoiceView;
use crate::protocol::{clone_opt_string, opt_view, ColorScheme, VoiceState};

verus! {

/// How many input levels the waveform keeps.
pub const LEVEL_HISTORY: usize = 24;

/// One frame of the voice panel.
#[derive(Debug)]
pub struct VoiceFrame {
    pub levels: Vec<u16>,
    pub title: String,
    pub transcript: Option<String>,
    pub hint: String,
}

/// The voice panel as last drawn.
#[derive(Debug)]
pub struct VoicePanel {
    pub state: VoiceState,
    pub color_scheme: ColorScheme,
    pub frame: VoiceFrame,
}

/// The title and hint shown in each phase.
pub open spec fn caption(state: VoiceState) -> (Seq<char>, Seq<char>) {
    match state {
        VoiceState::Recording => ("正在听"@, "再次按快捷键完成 · Esc 取消"@),
        VoiceState::Recognizing => ("正在识别"@, "正在整理转写…"@),
        VoiceState::Ready => ("即将上屏"@, "识别完成"@),
        VoiceState::Failed => ("语音暂不可用"@, "可再次按快捷键重试"@),
        VoiceState::Idle => ("没有听清"@, "请靠近麦克风再试一次"@),
        _ => ("语音输入"@, "请稍候"@),
    }
}

/// The level history after a new view: it restarts when recording begins, grows by the new level
/// while recording (by 0 otherwise), and keeps only the last [`LEVEL_HISTORY`] entries.
pub open spec fn levels_after(
    previous: Option<(VoiceState, Seq<u16>)>,
    state: VoiceState,
    level: u16,
) -> Seq<u16> {
    let reset = (previous is None || previous.unwrap().0 != VoiceState::Recording) && state
        == VoiceState::Recording;
    let base = if reset || previous is None {
        Seq::<u16>::empty()
    } else {
        previous.unwrap().1
    };
    let pushed = base.push(
        if state == VoiceState::Recording {
            level
        } else {
            0
        },
    );
    if pushed.len() > LEVEL_HISTORY {
        pushed.skip(pushed.len() - LEVEL_HISTORY)
    } else {
        pushed
    }
}

/// The title and hint of a phase.
pub fn voice_caption(state: VoiceState) -> (r: (&'static str, &'static str))
    ensures
        (r.0@, r.1@) == caption(state),
{
    match state {
        VoiceState::Recording => ("正在听", "再次按快捷键完成 · Esc 取消"),
        VoiceState::Recognizing => ("正在识别", "正在整理转写…"),
        VoiceState::Ready => ("即将上屏", "识别完成"),
        VoiceState::Failed => ("语音暂不可用", "可再次按快捷键重试"),
        VoiceState::Idle => ("没有听清", "请靠近麦克风再试一次"),
        _ => ("语音输入", "请稍候"),
    }
}

/// The level history after `view`, given the panel drawn before.
pub fn next_levels(previous: Option<&VoicePanel>, state: VoiceState, level: u16) -> (r: Vec<u16>)
    ensures
        r@ == levels_after(
            match previous {
                Some(p) => Some((p.state, p.frame.levels@)),
                None => None,
            },
            state,
            level,
        ),
{
    let recording = match state {
        VoiceState::Recording => true,
        _ => false,
    };
    let was_recording = match previous {
        Some(p) => match p.state {
            VoiceState::Recording => true,
            _ => false,
        },
        None => false,
    };
    let reset = !was_recording && recording;
    let mut pushed: Vec<u16> = Vec::new();
    if !reset {
        if let Some(p) = previous {
            let mut i: usize = 0;
            while i < p.frame.levels.len()
                invariant
                    i <= p.frame.levels.len(),
                    pushed@ == p.frame.levels@.subrange(0, i as int),
                decreases p.frame.levels.len() - i,
            {
                pushed.push(p.frame.levels[i]);
                i = i + 1;
                assert(pushed@ =~= p.frame.levels@.subrange(0, i as int));
            }
            assert(p.frame.levels@.subrange(0, p.frame.levels.len() as int) =~= p.frame.levels@);
        }
    }
    pushed.push(if recording {
        level
    } else {
        0
    });
    if pushed.len() <= LEVEL_HISTORY {
        return pushed;
    }
    let start = pushed.len() - LEVEL_HISTORY;
    let mut kept: Vec<u16> = Vec::new();
    let mut j: usize = start;
    while j < pushed.len()
        invariant
            start <= j <= pushed.len(),
            kept@ == pushed@.subrange(start as int, j as int),
        decreases pushed.len() - j,
    {
        kept.push(pushed[j]);
        j = j + 1;
        assert(kept@ =~= pushed@.subrange(start as int, j as int));
    }
    assert(pushed@.skip(start as int) =~= pushed@.subrange(start as int, pushed.len() as int));
    kept
}

/// The voice panel to draw for `view`, given the one drawn before: the waveform scrolls, the title
/// and hint follow the phase, and the transcript is the view's text.
pub fn next_voice_panel(previous: Option<&VoicePanel>, view: &VoiceView) -> (r: VoicePanel)
    ensures
        r.state == view.state,
        r.color_scheme == view.color_scheme,
        r.frame.levels@ == levels_after(
            match previous {
                Some(p) => Some((p.state, p.frame.levels@)),
                None => None,
            },
            view.state,
            view.level,
        ),
        (r.frame.title@, r.frame.hint@) == caption(view.state),
        opt_view(r.frame.transcript) == opt_view(view.text),
{
    let levels = next_levels(previous, view.state, view.level);
    let (title, hint) = voice_caption(view.state);
    VoicePanel {
        state: view.state,
        color_scheme: view.color_scheme,
        frame: VoiceFrame {
            levels,
            title: String::from_str(title),
            transcript: clone_opt_string(&view.text),
            hint: String::from_str(hint),
        },
    }
}

/// The waveform never holds more than [`LEVEL_HISTORY`] levels and always ends with the newest.
pub proof fn lemma_levels_bounded(
    previous: Option<(VoiceState, Seq<u16>)>,
    state: VoiceState,
    level: u16,
)
    ensures
        levels_after(previous, state, level).len() <= LEVEL_HISTORY,
        levels_after(previous, state, level).len() >= 1,
        levels_after(previous, state, level).last() == (if state == VoiceState::Recording {
            level
        } else {
            0
        }),
{
}

/// A new recording starts a fresh waveform.
pub proof fn lemma_recording_restarts_waveform(previous: Option<(VoiceState, Seq<u16>)>, level: u16)
    requires
        previous is None || previous.unwrap().0 != VoiceState::Recording,
    ensures
        levels_after(previous, VoiceState::Recording, level) == seq![level],
{
}

} // verus!
