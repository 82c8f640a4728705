use qingjian_windows::tsf::key_route::{
    claims_key_down, key_down_route, would_eat, KeyClass, KeyDownRoute, KeyModifiers,
};

fn modifiers(shift: bool, caps: bool, english_mode: bool, command_key: bool) -> KeyModifiers {
    KeyModifiers {
        shift,
        caps,
        english_mode,
        command_key,
    }
}

fn class(digit: bool, letter: bool, edit: bool, nav: bool) -> KeyClass {
    KeyClass {
        digit,
        letter,
        edit,
        nav,
    }
}

const PLAIN: KeyModifiers = KeyModifiers {
    shift: false,
    caps: false,
    english_mode: false,
    command_key: false,
};

#[test]
fn protocol_mismatch_eats_no_key() {
    assert!(!would_eat(true, true, PLAIN, class(false, true, false, false), Some('a')));
    assert!(!would_eat(true, false, PLAIN, class(true, false, false, false), Some('1')));
}

#[test]
fn command_key_only_takes_digits_while_composing() {
    let ctrl = modifiers(false, false, false, true);
    assert!(would_eat(false, true, ctrl, class(true, false, false, false), None));
    assert!(!would_eat(false, false, ctrl, class(true, false, false, false), None));
    assert!(!would_eat(false, true, ctrl, class(false, true, false, false), Some('c')));
}

#[test]
fn shifted_capital_outside_composition_goes_to_the_app_in_chinese_mode() {
    let letter = class(false, true, false, false);
    assert!(!would_eat(false, false, modifiers(true, false, false, false), letter, Some('A')));
    assert!(would_eat(false, true, modifiers(true, false, false, false), letter, Some('A')));
    assert!(would_eat(false, false, modifiers(true, true, false, false), letter, Some('A')));
    assert!(would_eat(false, false, modifiers(true, false, true, false), letter, Some('A')));
    assert!(would_eat(false, false, PLAIN, letter, Some('a')));
}

#[test]
fn composing_takes_edit_navigation_and_printable_keys() {
    let none = class(false, false, false, false);
    assert!(would_eat(false, true, PLAIN, class(false, false, true, false), None));
    assert!(would_eat(false, true, PLAIN, class(false, false, false, true), None));
    assert!(would_eat(false, true, PLAIN, none, Some('，')));
    assert!(!would_eat(false, true, PLAIN, none, Some('\u{7f}')));
    assert!(!would_eat(false, true, PLAIN, none, None));
}

#[test]
fn outside_composition_only_ascii_digits_and_punctuation_are_tested() {
    let none = class(false, false, false, false);
    assert!(would_eat(false, false, PLAIN, none, Some('?')));
    assert!(would_eat(false, false, PLAIN, none, Some('7')));
    assert!(would_eat(false, false, PLAIN, none, Some('~')));
    assert!(!would_eat(false, false, PLAIN, none, Some(' ')));
    assert!(!would_eat(false, false, PLAIN, none, Some('，')));
    assert!(!would_eat(false, false, PLAIN, class(false, false, true, false), None));
}

#[test]
fn password_box_releases_keys_unless_composing() {
    assert_eq!(key_down_route(false, true, true, true, true), KeyDownRoute::Release);
    assert_eq!(key_down_route(true, true, false, false, false), KeyDownRoute::Forward);
}

#[test]
fn escape_cancels_voice_and_the_shortcut_is_held() {
    assert_eq!(key_down_route(false, false, true, true, false), KeyDownRoute::CancelVoice);
    assert_eq!(key_down_route(false, false, false, true, false), KeyDownRoute::Forward);
    assert_eq!(key_down_route(false, false, false, false, true), KeyDownRoute::VoiceShortcut);
    assert!(!claims_key_down(KeyDownRoute::Release, true));
    assert!(claims_key_down(KeyDownRoute::CancelVoice, false));
    assert!(claims_key_down(KeyDownRoute::VoiceShortcut, false));
    assert!(claims_key_down(KeyDownRoute::Forward, true));
    assert!(!claims_key_down(KeyDownRoute::Forward, false));
}
