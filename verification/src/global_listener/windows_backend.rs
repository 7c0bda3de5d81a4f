//! Virtual-key codes of Windows and the actions that they stand for.

use vstd::prelude::*;
use crate::global_listener::{GlobalInputAction, GlobalInputActionType};
use crate::keyboard::{unicode, SpecialKey, UnicodeKey};

verus! {

/// The named key of a virtual-key code, from the table of the codes that
/// stand for a named key.
pub open spec fn special_key_of(code: u32) -> Option<SpecialKey> {
    if code == 0x08 {
        Some(SpecialKey::Backspace)
    } else if code == 0x09 {
        Some(SpecialKey::Tab)
    } else if code == 0x10 {
        Some(SpecialKey::Shift)
    } else if code == 0x11 {
        Some(SpecialKey::Control)
    } else if code == 0x12 {
        Some(SpecialKey::Alt)
    } else if code == 0x13 {
        Some(SpecialKey::Pause)
    } else if code == 0x1B {
        Some(SpecialKey::Escape)
    } else if code == 0x20 {
        Some(SpecialKey::Space)
    } else if code == 0x21 {
        Some(SpecialKey::PageUp)
    } else if code == 0x22 {
        Some(SpecialKey::PageDown)
    } else if code == 0x23 {
        Some(SpecialKey::End)
    } else if code == 0x24 {
        Some(SpecialKey::Home)
    } else if code == 0x2D {
        Some(SpecialKey::Insert)
    } else if code == 0x2E {
        Some(SpecialKey::Delete)
    } else if code == 0xA0 {
        Some(SpecialKey::LShift)
    } else if code == 0xA1 {
        Some(SpecialKey::RShift)
    } else if code == 0xA2 {
        Some(SpecialKey::LControl)
    } else if code == 0xA3 {
        Some(SpecialKey::RControl)
    } else {
        None
    }
}

impl SpecialKey {
    /// The named key that a virtual-key code stands for, if it stands for
    /// one.
    pub fn try_from(value: u32) -> (key: Result<SpecialKey, ()>)
        ensures
            match special_key_of(value) {
                Some(named) => key == Ok::<SpecialKey, ()>(named),
                None => key is Err,
            },
    {
        match value {
            0x08 => Ok(SpecialKey::Backspace),
            0x09 => Ok(SpecialKey::Tab),
            0x10 => Ok(SpecialKey::Shift),
            0x11 => Ok(SpecialKey::Control),
            0x12 => Ok(SpecialKey::Alt),
            0x13 => Ok(SpecialKey::Pause),
            0x1B => Ok(SpecialKey::Escape),
            0x20 => Ok(SpecialKey::Space),
            0x21 => Ok(SpecialKey::PageUp),
            0x22 => Ok(SpecialKey::PageDown),
            0x23 => Ok(SpecialKey::End),
            0x24 => Ok(SpecialKey::Home),
            0x2D => Ok(SpecialKey::Insert),
            0x2E => Ok(SpecialKey::Delete),
            0xA0 => Ok(SpecialKey::LShift),
            0xA1 => Ok(SpecialKey::RShift),
            0xA2 => Ok(SpecialKey::LControl),
            0xA3 => Ok(SpecialKey::RControl),
            _ => Err(()),
        }
    }
}

/// `char::to_string` of std: the text of one character.
#[verifier::external_body]
fn string_of_char(c: char) -> (text: String)
    ensures
        text@ == seq![c],
{
    c.to_string()
}

impl GlobalInputActionType {
    /// The key of a virtual-key code: the named key where the code stands
    /// for one; else the key of the character that the keyboard layout
    /// gives for the code, where `typed` holds one; else the code itself.
    pub fn from(value: u32, typed: Option<char>) -> (key: Self)
        ensures
            match (special_key_of(value), typed) {
                (Some(named), _) => key == GlobalInputActionType::SpecialKey { key: named },
                (None, Some(c)) => key matches GlobalInputActionType::UnicodeKey { key: k }
                    && k.kind@ == "Unicode"@ && k.value@ == seq![c],
                (None, None) => key == GlobalInputActionType::Raw { keycode: value },
            },
    {
        match SpecialKey::try_from(value) {
            Ok(named) => GlobalInputActionType::SpecialKey { key: named },
            Err(_) => match typed {
                Some(c) => GlobalInputActionType::UnicodeKey { key: unicode(string_of_char(c)) },
                None => GlobalInputActionType::Raw { keycode: value },
            },
        }
    }
}

/// The action to report when the key with this code went down.
pub fn handle_keydown(key_code: u32, typed: Option<char>) -> (action: GlobalInputAction)
    ensures
        action matches GlobalInputAction::KeyDown { value } && match (
            special_key_of(key_code),
            typed,
        ) {
            (Some(named), _) => value == GlobalInputActionType::SpecialKey { key: named },
            (None, Some(c)) => value matches GlobalInputActionType::UnicodeKey { key: k }
                && k.kind@ == "Unicode"@ && k.value@ == seq![c],
            (None, None) => value == GlobalInputActionType::Raw { keycode: key_code },
        },
{
    GlobalInputAction::KeyDown { value: GlobalInputActionType::from(key_code, typed) }
}

/// The action to report when the key with this code came up.
pub fn handle_keyup(key_code: u32, typed: Option<char>) -> (action: GlobalInputAction)
    ensures
        action matches GlobalInputAction::KeyUp { value } && match (
            special_key_of(key_code),
            typed,
        ) {
            (Some(named), _) => value == GlobalInputActionType::SpecialKey { key: named },
            (None, Some(c)) => value matches GlobalInputActionType::UnicodeKey { key: k }
                && k.kind@ == "Unicode"@ && k.value@ == seq![c],
            (None, None) => value == GlobalInputActionType::Raw { keycode: key_code },
        },
{
    GlobalInputAction::KeyUp { value: GlobalInputActionType::from(key_code, typed) }
}

} // verus!
