//! Which keys the text service takes: the test before a key is delivered, and where a delivered
//! key goes (cancel voice input, the voice shortcut, or the server).
use vstd::prelude::*;

use crate::tsf::key_forward::{is_control, is_control_char};

verus! {

/// The modifier state of a key event.
#[derive(Clone, Copy, Debug, PartialEq, Eq, Structural)]
pub struct KeyModifiers {
    pub shift: bool,
    pub caps: bool,
    /// The input method is in English mode.
    pub english_mode: bool,
    /// Ctrl, Alt or the Windows key is held.
    pub command_key: bool,
}

/// What kind of key the virtual-key code is.
#[derive(Clone, Copy, Debug, PartialEq, Eq, Structural)]
pub struct KeyClass {
    /// A digit key (the main row or the keypad).
    pub digit: bool,
    /// A letter key.
    pub letter: bool,
    /// An editing key (backspace, delete, enter, escape, space, tab).
    pub edit: bool,
    /// A navigation key (arrows, home, end, page up and down).
    pub nav: bool,
}

/// Whether `c` is ASCII punctuation: `!` to `/`, `:` to `@`, `[` to `` ` ``, `{` to `~`.
pub open spec fn is_ascii_punctuation_char(c: char) -> bool {
    let u = c as u32;
    (0x21 <= u && u <= 0x2f) || (0x3a <= u && u <= 0x40) || (0x5b <= u && u <= 0x60) || (0x7b <= u
        && u <= 0x7e)
}

/// Whether `c` is an ASCII digit, `0` (U+0030) to `9` (U+0039).
pub open spec fn is_ascii_digit_char(c: char) -> bool {
    0x30 <= c as u32 && c as u32 <= 0x39
}

/// Whether the text service takes a key, in line with how the server dispatches it.
pub open spec fn eats_key(
    mismatch: bool,
    composing: bool,
    modifiers: KeyModifiers,
    class: KeyClass,
    character: Option<char>,
) -> bool {
    if mismatch {
        false
    } else if modifiers.command_key {
        composing && class.digit
    } else if class.letter {
        modifiers.caps || modifiers.english_mode || !modifiers.shift || composing
    } else if composing {
        class.edit || class.nav || (character matches Some(c) && !is_control_char(c))
    } else {
        character matches Some(c) && (is_ascii_punctuation_char(c) || is_ascii_digit_char(c))
    }
}

/// Whether the text service takes a key: none while the server speaks another protocol version;
/// with Ctrl, Alt or Win only a digit while composing (deleting a candidate); a letter unless it
/// is a shifted capital in Chinese mode outside a composition; while composing every editing and
/// navigation key and every printable character; otherwise ASCII digits and punctuation, which
/// the server may turn full width.
pub fn would_eat(
    mismatch: bool,
    composing: bool,
    modifiers: KeyModifiers,
    class: KeyClass,
    character: Option<char>,
) -> (r: bool)
    ensures
        r == eats_key(mismatch, composing, modifiers, class, character),
{
    if mismatch {
        return false;
    }
    if modifiers.command_key {
        return composing && class.digit;
    }
    if class.letter {
        return modifiers.caps || modifiers.english_mode || !modifiers.shift || composing;
    }
    if composing {
        return class.edit || class.nav || match character {
            Some(c) => !is_control(c),
            None => false,
        };
    }
    match character {
        Some(c) => {
            let u = c as u32;
            (0x21 <= u && u <= 0x2f) || (0x3a <= u && u <= 0x40) || (0x5b <= u && u <= 0x60) || (
            0x7b <= u && u <= 0x7e) || (0x30 <= u && u <= 0x39)
        },
        None => false,
    }
}

/// Outside a composition, with neither Ctrl, Alt nor Win held and for a key that is not a letter,
/// the text service takes exactly the printable ASCII characters other than letters (the digits
/// and punctuation that the server may turn full width, such as `,` and `.`); a key without a
/// character, or with any other character, goes to the application.
pub proof fn lemma_plain_keys_taken(modifiers: KeyModifiers, class: KeyClass, character: Option<char>)
    requires
        !modifiers.command_key,
        !class.letter,
    ensures
        eats_key(false, false, modifiers, class, character) == (character matches Some(c) && 0x21
            <= c as u32 && c as u32 <= 0x7e && !(0x41 <= c as u32 && c as u32 <= 0x5a) && !(0x61
            <= c as u32 && c as u32 <= 0x7a)),
{
}

/// While the server speaks another protocol version no key is taken.
pub proof fn lemma_mismatch_takes_nothing(
    composing: bool,
    modifiers: KeyModifiers,
    class: KeyClass,
    character: Option<char>,
)
    ensures
        !eats_key(true, composing, modifiers, class, character),
{
}

/// Where a key that went down goes.
#[derive(Clone, Copy, Debug, PartialEq, Eq, Structural)]
pub enum KeyDownRoute {
    /// The context disables the keyboard (a password box): the application gets the key.
    Release,
    /// Escape while voice input runs: cancel it and eat the key.
    CancelVoice,
    /// The voice shortcut went down: eat it and wait for its release.
    VoiceShortcut,
    /// Anything else: the server decides, if the key is one the text service takes.
    Forward,
}

/// Where a key goes: the keyboard counts as disabled only outside a composition (a composition
/// is the input method's own, and an application ends it before it disables the keyboard).
pub open spec fn key_down_route_of(
    composing: bool,
    context_disables_keyboard: bool,
    voice_active: bool,
    escape: bool,
    voice_shortcut: bool,
) -> KeyDownRoute {
    if !composing && context_disables_keyboard {
        KeyDownRoute::Release
    } else if voice_active && escape {
        KeyDownRoute::CancelVoice
    } else if voice_shortcut {
        KeyDownRoute::VoiceShortcut
    } else {
        KeyDownRoute::Forward
    }
}

/// Where a key that went down goes.
pub fn key_down_route(
    composing: bool,
    context_disables_keyboard: bool,
    voice_active: bool,
    escape: bool,
    voice_shortcut: bool,
) -> (r: KeyDownRoute)
    ensures
        r == key_down_route_of(composing, context_disables_keyboard, voice_active, escape, voice_shortcut),
{
    if !composing && context_disables_keyboard {
        KeyDownRoute::Release
    } else if voice_active && escape {
        KeyDownRoute::CancelVoice
    } else if voice_shortcut {
        KeyDownRoute::VoiceShortcut
    } else {
        KeyDownRoute::Forward
    }
}

/// The answer to the test before a key is delivered: whether the key will be eaten.
pub fn claims_key_down(route: KeyDownRoute, eats: bool) -> (r: bool)
    ensures
        r == match route {
            KeyDownRoute::Release => false,
            KeyDownRoute::CancelVoice | KeyDownRoute::VoiceShortcut => true,
            KeyDownRoute::Forward => eats,
        },
{
    match route {
        KeyDownRoute::Release => false,
        KeyDownRoute::CancelVoice | KeyDownRoute::VoiceShortcut => true,
        KeyDownRoute::Forward => eats,
    }
}

/// While the server speaks another protocol version, no key is eaten, so every key reaches the
/// application as plain English typing.
pub proof fn lemma_mismatch_eats_nothing(
    composing: bool,
    modifiers: KeyModifiers,
    class: KeyClass,
    character: Option<char>,
)
    ensures
        !eats_key(true, composing, modifiers, class, character),
{
}

/// In a password box nothing is taken outside a composition, voice keys included.
pub proof fn lemma_disabled_keyboard_releases_keys(
    context_disables_keyboard: bool,
    voice_active: bool,
    escape: bool,
    voice_shortcut: bool,
)
    requires
        context_disables_keyboard,
    ensures
        key_down_route_of(false, context_disables_keyboard, voice_active, escape, voice_shortcut)
            == KeyDownRoute::Release,
{
}

} // verus!
