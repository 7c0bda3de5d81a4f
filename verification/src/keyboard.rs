//! Keys of the keyboard, as callers name them.

use vstd::prelude::*;
use vstd::string::{StrSliceExecFns, StringExecFns};

verus! {

/// A key that has a name rather than a character.
#[derive(Clone, Copy, Debug, PartialEq, Eq, Structural)]
pub enum SpecialKey {
    Add,
    Alt,
    Backspace,
    Cancel,
    CapsLock,
    Clear,
    Command,
    Control,
    Decimal,
    Delete,
    Divide,
    DownArrow,
    End,
    Escape,
    Execute,
    F1,
    F2,
    F3,
    F4,
    F5,
    F6,
    F7,
    F8,
    F9,
    F10,
    F11,
    F12,
    F13,
    F14,
    F15,
    F16,
    F17,
    F18,
    F19,
    Help,
    Home,
    Insert,
    LControl,
    LeftArrow,
    LShift,
    MediaNextTrack,
    MediaPlayPause,
    MediaPrevTrack,
    Meta,
    Multiply,
    Numpad0,
    Numpad1,
    Numpad2,
    Numpad3,
    Numpad4,
    Numpad5,
    Numpad6,
    Numpad7,
    Numpad8,
    Numpad9,
    Option,
    PageDown,
    PageUp,
    Pause,
    RControl,
    Return,
    RightArrow,
    RShift,
    Shift,
    Space,
    Subtract,
    Tab,
    UpArrow,
    VolumeDown,
    VolumeMute,
    VolumeUp,
}

/// A key to press: one with a name, or the one that types a character.
#[derive(Clone, Copy, Debug, PartialEq, Eq, Structural)]
pub enum Key {
    Special(SpecialKey),
    Unicode(char),
}

/// A key as a caller writes it: `kind` is `"Unicode"`, and `value` holds
/// the one character that the key types.
#[derive(Clone, Debug, PartialEq, Eq)]
pub struct UnicodeKey {
    pub kind: String,
    pub value: String,
}

/// The key that types `s`.
pub fn unicode(s: String) -> (key: UnicodeKey)
    ensures
        key.kind@ == "Unicode"@,
        key.value == s,
{
    UnicodeKey { kind: String::from_str("Unicode"), value: s }
}

/// Why a key could not be pressed.
#[derive(Clone, Debug, PartialEq, Eq)]
pub struct KeyboardError {
    pub message: String,
}

/// The key that a caller's `UnicodeKey` names. Its kind must be `"Unicode"`
/// and its value exactly one character.
pub fn get_key(key: &UnicodeKey) -> (named: Result<Key, KeyboardError>)
    ensures
        key.kind@ == "Unicode"@ && key.value@.len() == 1 ==> named == Ok::<Key, KeyboardError>(
            Key::Unicode(key.value@[0]),
        ),
        key.kind@ == "Unicode"@ && key.value@.len() == 0 ==> named is Err && named->Err_0.message@
            == "Empty char"@,
        key.kind@ == "Unicode"@ && key.value@.len() > 1 ==> named is Err && named->Err_0.message@
            == "Unicode value must be a single char"@,
        key.kind@ != "Unicode"@ ==> named is Err && named->Err_0.message@
            == "Unknown object kind"@,
{
    let wanted = String::from_str("Unicode");
    if key.kind == wanted {
        let length: usize = key.value.as_str().unicode_len();
        if length == 0 {
            Err(KeyboardError { message: String::from_str("Empty char") })
        } else if length > 1 {
            Err(KeyboardError { message: String::from_str("Unicode value must be a single char") })
        } else {
            Ok(Key::Unicode(key.value.as_str().get_char(0)))
        }
    } else {
        Err(KeyboardError { message: String::from_str("Unknown object kind") })
    }
}

} // verus!
