use qingjian_windows::protocol::{VoiceAction, VoiceState, VoiceTrigger};
use qingjian_windows::tsf::host::{launch_refusal, shell_execute_succeeded};
use qingjian_windows::tsf::key_forward::{decide_key, is_control, KeyAction, KeyResponse};
use qingjian_windows::tsf::voice_client::{KeyUpDecision, SyncAction, VoiceClientState};

fn response(commit: Option<&str>, preedit: &str, consumed: bool, composing: bool) -> KeyResponse {
    KeyResponse {
        commit: commit.map(str::to_owned),
        preedit: preedit.to_owned(),
        consumed,
        composing,
    }
}

#[test]
fn consumed_keys_update_the_document() {
    match decide_key(Some(response(Some("你好"), "", true, false)), Some(' '), false) {
        KeyAction::Update(commit, preedit) => {
            assert_eq!(commit.as_deref(), Some("你好"));
            assert_eq!(preedit, "");
        }
        other => panic!("expected an update, got {other:?}"),
    }
}

#[test]
fn printable_keys_let_through_outside_a_composition_are_inserted() {
    match decide_key(Some(response(Some("abc"), "", false, false)), Some('，'), false) {
        KeyAction::Insert(text) => assert_eq!(text, "abc，"),
        other => panic!("expected an insert, got {other:?}"),
    }
    match decide_key(Some(response(None, "", false, false)), Some('x'), false) {
        KeyAction::Insert(text) => assert_eq!(text, "x"),
        other => panic!("expected an insert, got {other:?}"),
    }
}

#[test]
fn hotkeys_control_characters_and_failures_go_to_the_app() {
    assert!(matches!(
        decide_key(Some(response(None, "", false, false)), Some('c'), true),
        KeyAction::PassToApp
    ));
    assert!(matches!(
        decide_key(Some(response(None, "", false, false)), Some('\u{8}'), false),
        KeyAction::PassToApp
    ));
    assert!(matches!(
        decide_key(Some(response(None, "ni", false, true)), Some('1'), false),
        KeyAction::PassToApp
    ));
    assert!(matches!(decide_key(None, Some('a'), false), KeyAction::PassToApp));
}

#[test]
fn a_delivered_transcript_is_written_once_then_acknowledged() {
    let mut state = VoiceClientState::new();
    let delivery = || Some((7, "最终文字".to_owned()));
    match state.apply_voice_sync(true, VoiceTrigger::RightAlt, VoiceState::Ready, delivery(), true) {
        SyncAction::Write(request, text) => {
            assert_eq!(request, 7);
            assert_eq!(text, "最终文字");
        }
        other => panic!("expected a write, got {other:?}"),
    }
    assert!(state.active);
    assert_eq!(state.shortcut_key(), Some(0xA5));
    assert!(matches!(
        state.apply_voice_sync(true, VoiceTrigger::RightAlt, VoiceState::Ready, delivery(), true),
        SyncAction::Nothing
    ));
    state.voice_written(7);
    assert!(matches!(
        state.apply_voice_sync(true, VoiceTrigger::RightAlt, VoiceState::Ready, delivery(), true),
        SyncAction::Ack(7)
    ));
    state.ack_accepted();
    assert!(!state.active);
    assert_eq!(state.committed, None);
    assert_eq!(state.queued, None);
}

#[test]
fn a_failed_write_is_retried_and_nothing_is_written_without_a_document() {
    let mut state = VoiceClientState::new();
    let delivery = || Some((3, "文字".to_owned()));
    assert!(matches!(
        state.apply_voice_sync(true, VoiceTrigger::RightCtrl, VoiceState::Ready, delivery(), false),
        SyncAction::Nothing
    ));
    assert!(matches!(
        state.apply_voice_sync(true, VoiceTrigger::RightCtrl, VoiceState::Ready, delivery(), true),
        SyncAction::Write(3, _)
    ));
    state.voice_write_failed();
    assert!(matches!(
        state.apply_voice_sync(true, VoiceTrigger::RightCtrl, VoiceState::Ready, delivery(), true),
        SyncAction::Write(3, _)
    ));
}

#[test]
fn disabled_voice_turns_the_shortcut_off() {
    let mut state = VoiceClientState::new();
    state.apply_voice_sync(false, VoiceTrigger::CapsLock, VoiceState::Disabled, None, true);
    assert_eq!(state.trigger, VoiceTrigger::Off);
    assert_eq!(state.shortcut_key(), None);
}

#[test]
fn shortcut_used_with_another_key_does_not_toggle() {
    let mut state = VoiceClientState::new();
    state.shortcut_pressed();
    state.note_key_down(true);
    state.note_key_down(false);
    assert_eq!(state.shortcut_released(false), KeyUpDecision::Combo);
    state.shortcut_pressed();
    assert_eq!(state.shortcut_released(true), KeyUpDecision::Debounced);
    state.shortcut_pressed();
    assert_eq!(
        state.shortcut_released(false),
        KeyUpDecision::Toggle(VoiceAction::Start)
    );
    state.action_sent(VoiceAction::Start);
    assert!(state.active);
    state.shortcut_pressed();
    assert_eq!(
        state.shortcut_released(false),
        KeyUpDecision::Toggle(VoiceAction::Stop)
    );
}

#[test]
fn cancel_is_sent_only_while_active() {
    let mut state = VoiceClientState::new();
    assert!(!state.cancel_voice());
    state.action_sent(VoiceAction::Start);
    state.shortcut_pressed();
    assert!(state.cancel_voice());
    assert!(!state.active);
    assert!(!state.key_held);
}

#[test]
fn hosts_that_must_not_launch_the_server() {
    assert_eq!(launch_refusal(None, false, false), Some("宿主在服务会话里"));
    assert_eq!(launch_refusal(Some(0), false, false), Some("宿主在服务会话里"));
    assert_eq!(launch_refusal(Some(1), true, true), Some("宿主以系统服务账号运行"));
    assert_eq!(launch_refusal(Some(1), false, true), Some("宿主是提权进程"));
    assert_eq!(launch_refusal(Some(2), false, false), None);
    assert!(!shell_execute_succeeded(32));
    assert!(shell_execute_succeeded(33));
}

#[test]
fn control_characters_are_exactly_category_cc() {
    for c in ['\u{0}', '\t', '\n', '\u{1f}', '\u{7f}', '\u{85}', '\u{9f}'] {
        assert!(is_control(c), "{:?}", c);
        assert_eq!(is_control(c), c.is_control());
    }
    for c in [' ', 'a', '~', '\u{a0}', '中', '\u{200b}', '\u{2028}'] {
        assert!(!is_control(c), "{:?}", c);
        assert_eq!(is_control(c), c.is_control());
    }
}
