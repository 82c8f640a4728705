//! The voice shortcut as the text service sees it: which key events are the shortcut, what a
//! release toggles, and the debounce against a double trigger.
use vstd::prelude::*;

use crate::protocol::{trigger_key, VoiceAction, VoiceTrigger, VK_CONTROL, VK_MENU};

verus! {

/// A second toggle within this many milliseconds of the previous one is ignored.
pub const VOICE_TOGGLE_DEBOUNCE_MS: u64 = 350;

/// [`VOICE_TOGGLE_DEBOUNCE_MS`] in nanoseconds.
pub const VOICE_TOGGLE_DEBOUNCE_NS: u128 = 350_000_000;

/// Whether a key-down of `vk` is the voice shortcut. The generic Alt / Ctrl codes count for the
/// right-hand trigger when the extended bit is set or, since the text framework may drop that bit,
/// when the right-hand key is physically down.
pub open spec fn voice_key_down_spec(
    trigger: VoiceTrigger,
    vk: u32,
    extended: bool,
    right_alt_down: bool,
    right_ctrl_down: bool,
) -> bool {
    if trigger_key(trigger) == Some(vk) {
        true
    } else if trigger == VoiceTrigger::RightAlt && vk == VK_MENU {
        extended || right_alt_down
    } else if trigger == VoiceTrigger::RightCtrl && vk == VK_CONTROL {
        extended || right_ctrl_down
    } else {
        false
    }
}

/// Whether a key-up of `vk` ends the voice shortcut: its own key, the generic Alt / Ctrl code
/// while the shortcut is held, or anything that would count as its key-down.
pub open spec fn voice_key_up_spec(
    trigger: VoiceTrigger,
    vk: u32,
    held: bool,
    extended: bool,
    right_alt_down: bool,
    right_ctrl_down: bool,
) -> bool {
    trigger_key(trigger) == Some(vk) || (held && ((trigger == VoiceTrigger::RightAlt && vk
        == VK_MENU) || (trigger == VoiceTrigger::RightCtrl && vk == VK_CONTROL)))
        || voice_key_down_spec(trigger, vk, extended, right_alt_down, right_ctrl_down)
}

/// Which key-downs are the voice shortcut. Right Alt (`0xA5`) or right Ctrl (`0xA3`) always is,
/// for its own trigger; the generic Alt (`0x12`) or Ctrl (`0x11`) code is only when the extended
/// bit is set or that right-hand key is down, so a left-hand Alt or Ctrl never is; Caps Lock
/// (`0x14`) and Scroll Lock (`0x91`) are their own keys; with the shortcut off no key is.
pub proof fn lemma_voice_key_down_keys(
    trigger: VoiceTrigger,
    vk: u32,
    extended: bool,
    right_alt_down: bool,
    right_ctrl_down: bool,
)
    ensures
        voice_key_down_spec(trigger, vk, extended, right_alt_down, right_ctrl_down) == match trigger {
            VoiceTrigger::RightAlt => vk == 0xA5 || (vk == 0x12 && (extended || right_alt_down)),
            VoiceTrigger::RightCtrl => vk == 0xA3 || (vk == 0x11 && (extended || right_ctrl_down)),
            VoiceTrigger::CapsLock => vk == 0x14,
            VoiceTrigger::ScrollLock => vk == 0x91,
            VoiceTrigger::Off => false,
        },
        !voice_key_down_spec(VoiceTrigger::RightCtrl, 0x11, false, right_alt_down, false),
        !voice_key_down_spec(VoiceTrigger::RightAlt, 0x12, false, false, right_ctrl_down),
{
}

/// While the shortcut is not held, a key-up ends it exactly when the same key going down would
/// have started it; a held shortcut also ends on the generic Alt or Ctrl release of its trigger.
pub proof fn lemma_voice_key_up_matches_down(
    trigger: VoiceTrigger,
    vk: u32,
    extended: bool,
    right_alt_down: bool,
    right_ctrl_down: bool,
)
    ensures
        voice_key_up_spec(trigger, vk, false, extended, right_alt_down, right_ctrl_down)
            == voice_key_down_spec(trigger, vk, extended, right_alt_down, right_ctrl_down),
        trigger == VoiceTrigger::RightAlt ==> voice_key_up_spec(
            trigger,
            0x12,
            true,
            extended,
            right_alt_down,
            right_ctrl_down,
        ),
        trigger == VoiceTrigger::RightCtrl ==> voice_key_up_spec(
            trigger,
            0x11,
            true,
            extended,
            right_alt_down,
            right_ctrl_down,
        ),
{
}

/// Whether a key-down of `vk` is the voice shortcut.
pub fn is_voice_key_down(
    trigger: VoiceTrigger,
    vk: u32,
    extended: bool,
    right_alt_down: bool,
    right_ctrl_down: bool,
) -> (r: bool)
    ensures
        r == voice_key_down_spec(trigger, vk, extended, right_alt_down, right_ctrl_down),
{
    if trigger.virtual_key() == Some(vk) {
        return true;
    }
    match trigger {
        VoiceTrigger::RightAlt => {
            if vk == VK_MENU {
                extended || right_alt_down
            } else {
                false
            }
        },
        VoiceTrigger::RightCtrl => {
            if vk == VK_CONTROL {
                extended || right_ctrl_down
            } else {
                false
            }
        },
        _ => false,
    }
}

/// Whether a key-up of `vk` ends the voice shortcut.
pub fn is_voice_key_up(
    trigger: VoiceTrigger,
    vk: u32,
    held: bool,
    extended: bool,
    right_alt_down: bool,
    right_ctrl_down: bool,
) -> (r: bool)
    ensures
        r == voice_key_up_spec(trigger, vk, held, extended, right_alt_down, right_ctrl_down),
{
    if trigger.virtual_key() == Some(vk) {
        return true;
    }
    let generic = match trigger {
        VoiceTrigger::RightAlt => vk == VK_MENU,
        VoiceTrigger::RightCtrl => vk == VK_CONTROL,
        _ => false,
    };
    (held && generic) || is_voice_key_down(trigger, vk, extended, right_alt_down, right_ctrl_down)
}

/// What a release of the shortcut asks for: stop a running recording, otherwise start one.
pub fn toggle_voice_action(active: bool) -> (r: VoiceAction)
    ensures
        r == (if active {
            VoiceAction::Stop
        } else {
            VoiceAction::Start
        }),
{
    if active {
        VoiceAction::Stop
    } else {
        VoiceAction::Start
    }
}

/// Whether bit 24 (the extended-key flag) of a key message's `lparam` is set.
pub fn extended_key(lparam: isize) -> (r: bool)
    ensures
        r == (((lparam as usize) >> 24usize) & 1usize == 1usize),
{
    let word: usize = lparam as usize;
    let bit: usize = (word >> 24usize) & 1usize;
    assert(bit != 0 <==> bit == 1) by (bit_vector)
        requires
            bit == (word >> 24usize) & 1usize,
    ;
    bit != 0
}

/// Whether a toggle `elapsed` nanoseconds after the previous one (`None`: there was none) falls
/// inside the debounce window.
pub fn debounced_after(elapsed: Option<u128>) -> (r: bool)
    ensures
        r == (elapsed matches Some(e) && e < VOICE_TOGGLE_DEBOUNCE_NS),
{
    match elapsed {
        Some(e) => e < VOICE_TOGGLE_DEBOUNCE_NS,
        None => false,
    }
}

/// The nanoseconds from `previous` to `now` on a monotonic clock, zero when `previous` is later
/// (as `Instant::saturating_duration_since` measures).
pub open spec fn elapsed_since(previous: u64, now: u64) -> u128 {
    if now >= previous {
        (now - previous) as u128
    } else {
        0
    }
}

/// Whether a toggle at `now` comes too soon after the previous one at `previous`, both read from
/// a monotonic clock in nanoseconds: the time between them, zero when the previous toggle is later,
/// is under [`VOICE_TOGGLE_DEBOUNCE_NS`].
pub fn is_debounced(previous: Option<u64>, now: u64) -> (r: bool)
    ensures
        r == (previous matches Some(p) && elapsed_since(p, now) < VOICE_TOGGLE_DEBOUNCE_NS),
{
    let elapsed = match previous {
        Some(p) => Some(if now >= p {
            (now - p) as u128
        } else {
            0
        }),
        None => None,
    };
    debounced_after(elapsed)
}

} // verus!
