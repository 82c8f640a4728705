use std::time::Duration;

use qingjian_windows::protocol::{VoiceAction, VoiceTrigger, VK_CONTROL, VK_MENU, VK_RMENU};
use qingjian_windows::tsf::voice_key::{
    debounced_after, extended_key, is_debounced, is_voice_key_down, is_voice_key_up,
    toggle_voice_action, VOICE_TOGGLE_DEBOUNCE_MS,
};

#[test]
fn generic_right_alt_uses_live_side_state_when_tsf_drops_extended_bit() {
    assert!(is_voice_key_down(
        VoiceTrigger::RightAlt,
        VK_MENU,
        false,
        true,
        false
    ));
}

#[test]
fn generic_left_alt_does_not_trigger_voice() {
    assert!(!is_voice_key_down(
        VoiceTrigger::RightAlt,
        VK_MENU,
        false,
        false,
        false
    ));
}

#[test]
fn release_toggles_recording_without_requiring_a_key_down_callback() {
    assert_eq!(toggle_voice_action(false), VoiceAction::Start);
    assert_eq!(toggle_voice_action(true), VoiceAction::Stop);
}

#[test]
fn voice_toggle_ignores_only_the_short_debounce_window() {
    let debounce = Duration::from_millis(VOICE_TOGGLE_DEBOUNCE_MS).as_nanos() as u64;
    let now: u64 = 3_600_000_000_000;
    assert!(is_debounced(
        Some(now - debounce + Duration::from_millis(1).as_nanos() as u64),
        now
    ));
    assert!(!is_debounced(Some(now - debounce), now));
    assert!(!is_debounced(None, now));
}

#[test]
fn a_previous_toggle_later_than_now_counts_as_no_time_elapsed() {
    assert!(is_debounced(Some(500), 100));
    assert!(is_debounced(Some(100), 100));
}

#[test]
fn own_key_and_extended_generic_keys_are_the_shortcut() {
    assert!(is_voice_key_down(VoiceTrigger::RightAlt, VK_RMENU, false, false, false));
    assert!(is_voice_key_down(VoiceTrigger::RightAlt, VK_MENU, true, false, false));
    assert!(is_voice_key_down(VoiceTrigger::RightCtrl, VK_CONTROL, false, false, true));
    assert!(!is_voice_key_down(VoiceTrigger::RightCtrl, VK_MENU, true, true, true));
    assert!(!is_voice_key_down(VoiceTrigger::Off, VK_MENU, true, true, true));
    assert!(is_voice_key_down(VoiceTrigger::CapsLock, 0x14, false, false, false));
}

#[test]
fn generic_alt_release_ends_a_held_shortcut() {
    assert!(is_voice_key_up(VoiceTrigger::RightAlt, VK_MENU, true, false, false, false));
    assert!(!is_voice_key_up(VoiceTrigger::RightAlt, VK_MENU, false, false, false, false));
    assert!(!is_voice_key_up(VoiceTrigger::RightAlt, VK_CONTROL, true, false, false, false));
}

#[test]
fn extended_bit_is_bit_24() {
    assert!(extended_key(1 << 24));
    assert!(extended_key((1 << 24) | 0x1d0001));
    assert!(!extended_key(0x1d0001));
    assert!(!extended_key(1 << 25));
}

#[test]
fn debounce_window_in_nanoseconds() {
    assert!(debounced_after(Some(349_999_999)));
    assert!(!debounced_after(Some(350_000_000)));
    assert!(!debounced_after(None));
}
