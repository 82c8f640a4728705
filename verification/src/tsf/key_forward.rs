//! What the text service does with the server's answer to a key it took: update the document,
//! insert the character itself, or hand the key back to the application.
use vstd::prelude::*;

use crate::text::push_char;

verus! {

/// Whether `c` is a control character (general category Cc): U+0000–U+001F and U+007F–U+009F.
pub open spec fn is_control_char(c: char) -> bool {
    (c as u32) <= 0x1f || (0x7f <= (c as u32) && (c as u32) <= 0x9f)
}

/// Whether `c` is a control character, as `char::is_control` answers it.
pub fn is_control(c: char) -> (r: bool)
    ensures
        r == is_control_char(c),
{
    let code: u32 = c as u32;
    code <= 0x1f || (0x7f <= code && code <= 0x9f)
}

/// The server's answer to a key, as far as the document is concerned.
#[derive(Debug)]
pub struct KeyResponse {
    /// Text to commit.
    pub commit: Option<String>,
    /// The new inline pinyin (empty: no inline composition).
    pub preedit: String,
    /// The server used the key.
    pub consumed: bool,
    /// A composition is still under way (the frame is not empty).
    pub composing: bool,
}

/// What to do with the key.
#[derive(Debug)]
pub enum KeyAction {
    /// Give the key back to the application.
    PassToApp,
    /// Insert this text ourselves and eat the key.
    Insert(String),
    /// Commit this text (if any), show this pinyin, and eat the key.
    Update(Option<String>, String),
}

/// The view of a key action.
pub enum KeyActionModel {
    PassToApp,
    Insert(Seq<char>),
    Update(Option<Seq<char>>, Seq<char>),
}

impl View for KeyAction {
    type V = KeyActionModel;

    open spec fn view(&self) -> KeyActionModel {
        match self {
            KeyAction::PassToApp => KeyActionModel::PassToApp,
            KeyAction::Insert(t) => KeyActionModel::Insert(t@),
            KeyAction::Update(c, p) => KeyActionModel::Update(
                match c {
                    Some(c) => Some(c@),
                    None => None,
                },
                p@,
            ),
        }
    }
}

/// The decision for a key whose printable character is `character`, pressed with Ctrl, Alt or Win
/// when `command_key`, given the server's `response` (`None`: the exchange failed).
///
/// A printable character the server lets through while nothing is being composed is inserted by
/// the input method itself (self-drawn edit boxes would drop it if handed back), after any text the
/// server committed with it; keys with Ctrl / Alt / Win always go back to the application, as does
/// any other key the server lets through.
pub open spec fn key_decision(
    response: Option<(Option<Seq<char>>, Seq<char>, bool, bool)>,
    character: Option<char>,
    command_key: bool,
) -> KeyActionModel {
    match response {
        None => KeyActionModel::PassToApp,
        Some((commit, preedit, consumed, composing)) => if !consumed {
            if character is Some && !is_control_char(character.unwrap()) && !command_key
                && !composing {
                KeyActionModel::Insert(
                    match commit {
                        Some(c) => c,
                        None => Seq::empty(),
                    }.push(character.unwrap()),
                )
            } else {
                KeyActionModel::PassToApp
            }
        } else {
            KeyActionModel::Update(commit, preedit)
        },
    }
}

/// Whether the input method eats the key: everything but handing it back.
pub open spec fn key_eaten(action: KeyActionModel) -> bool {
    !(action is PassToApp)
}

/// Decides what happens with a key after the server answered `response` (`None`: it failed).
pub fn decide_key(response: Option<KeyResponse>, character: Option<char>, command_key: bool) -> (r:
    KeyAction)
    ensures
        r@ == key_decision(
            match response {
                Some(k) => Some(
                    (
                        match k.commit {
                            Some(c) => Some(c@),
                            None => None,
                        },
                        k.preedit@,
                        k.consumed,
                        k.composing,
                    ),
                ),
                None => None,
            },
            character,
            command_key,
        ),
{
    let response = match response {
        None => {
            return KeyAction::PassToApp;
        },
        Some(response) => response,
    };
    if !response.consumed {
        let printable = match character {
            Some(c) => !is_control(c),
            None => false,
        };
        if printable && !command_key && !response.composing {
            let mut text = match response.commit {
                Some(c) => c,
                None => String::new(),
            };
            push_char(&mut text, character.unwrap());
            return KeyAction::Insert(text);
        }
        return KeyAction::PassToApp;
    }
    KeyAction::Update(response.commit, response.preedit)
}

/// A key with Ctrl, Alt or Win that the server let through always goes back to the application,
/// and a failed exchange never eats the key.
pub proof fn lemma_hotkeys_and_failures_go_to_the_app(
    response: Option<(Option<Seq<char>>, Seq<char>, bool, bool)>,
    character: Option<char>,
)
    ensures
        key_decision(None, character, true) is PassToApp,
        key_decision(None, character, false) is PassToApp,
        (response matches Some((_, _, consumed, _)) && !consumed) ==> key_decision(
            response,
            character,
            true,
        ) is PassToApp,
{
}

} // verus!
