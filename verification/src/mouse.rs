//! Buttons of the mouse, as callers name them.

use vstd::prelude::*;
use vstd::string::StringExecFns;

verus! {

/// A button of the mouse, or a turn of its wheel.
#[derive(Clone, Copy, Debug, PartialEq, Eq, Structural)]
pub enum MouseButton {
    Left,
    Middle,
    Right,
    Back,
    Forward,
    ScrollUp,
    ScrollDown,
    ScrollLeft,
    ScrollRight,
}

/// Why the mouse could not be moved or clicked.
#[derive(Clone, Debug, PartialEq, Eq)]
pub struct MouseError {
    pub message: String,
}

impl MouseError {
    pub fn new(message: &str) -> (error: Self)
        ensures
            error.message@ == message@,
    {
        MouseError { message: String::from_str(message) }
    }

    /// The error of a task that found the mouse taken by another.
    pub fn locked() -> (error: Self)
        ensures
            error.message@ == "Only one mouse task is allowed at a time"@,
    {
        MouseError::new("Only one mouse task is allowed at a time")
    }
}

} // verus!
