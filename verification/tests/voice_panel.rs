use qingjian_windows::dispatch::router::VoiceView;
use qingjian_windows::protocol::{ColorScheme, VoiceState};
use qingjian_windows::ui::{next_levels, next_voice_panel, voice_caption, LEVEL_HISTORY};

fn view(state: VoiceState, level: u16, text: Option<&str>) -> VoiceView {
    VoiceView {
        state,
        level,
        text: text.map(str::to_owned),
        color_scheme: ColorScheme(1),
    }
}

#[test]
fn captions_follow_the_phase() {
    assert_eq!(
        voice_caption(VoiceState::Recording),
        ("正在听", "再次按快捷键完成 · Esc 取消")
    );
    assert_eq!(voice_caption(VoiceState::Idle), ("没有听清", "请靠近麦克风再试一次"));
    assert_eq!(voice_caption(VoiceState::Loading), ("语音输入", "请稍候"));
}

#[test]
fn waveform_scrolls_and_keeps_the_last_levels() {
    let mut panel = next_voice_panel(None, &view(VoiceState::Recording, 5, None));
    assert_eq!(panel.frame.levels, vec![5]);
    assert_eq!(panel.frame.title, "正在听");
    for level in 6..40u16 {
        panel = next_voice_panel(Some(&panel), &view(VoiceState::Recording, level, Some("部分")));
    }
    assert_eq!(panel.frame.levels.len(), LEVEL_HISTORY);
    assert_eq!(panel.frame.levels.first(), Some(&16));
    assert_eq!(panel.frame.levels.last(), Some(&39));
    assert_eq!(panel.frame.transcript.as_deref(), Some("部分"));
    let recognizing = next_voice_panel(Some(&panel), &view(VoiceState::Recognizing, 99, None));
    assert_eq!(recognizing.frame.levels.last(), Some(&0));
    assert_eq!(recognizing.frame.title, "正在识别");
    assert_eq!(recognizing.color_scheme, ColorScheme(1));
}

#[test]
fn a_new_recording_starts_a_fresh_waveform() {
    let idle = next_voice_panel(None, &view(VoiceState::Idle, 7, None));
    assert_eq!(idle.frame.levels, vec![0]);
    assert_eq!(next_levels(Some(&idle), VoiceState::Recording, 12), vec![12]);
    assert_eq!(next_levels(Some(&idle), VoiceState::Idle, 12), vec![0, 0]);
}
