//! The values that input callbacks carry: key codes, modifier sets, mouse
//! and controller buttons, controller axes.

use vstd::prelude::*;

verus! {

/// The key code that asks the loop to stop at once.
pub const ESCAPE: i32 = 27;

/// A key code, as the window system numbers it.
#[derive(Clone, Copy, Debug, PartialEq, Eq, Hash)]
pub struct Keycode {
    pub code: i32,
}

impl Keycode {
    /// Whether this is the escape key.
    pub open spec fn is_escape(self) -> bool {
        self.code == ESCAPE
    }

    /// The key with the given code.
    pub fn new(code: i32) -> (k: Keycode)
        ensures
            k.code == code,
    {
        Keycode { code }
    }

    /// The escape key.
    pub fn escape() -> (k: Keycode)
        ensures
            k.code == ESCAPE,
            k.is_escape(),
    {
        Keycode { code: ESCAPE }
    }
}

/// The set of modifier keys held down, one bit per key.
#[derive(Clone, Copy, Debug, PartialEq, Eq, Hash)]
pub struct Mod {
    pub bits: u16,
}

/// A mouse button.
#[derive(Clone, Copy, Debug, PartialEq, Eq, Hash)]
pub enum MouseButton {
    Unknown,
    Left,
    Middle,
    Right,
    X1,
    X2,
}

/// The mouse buttons held down at one instant, one bit per button.
#[derive(Clone, Copy, Debug, PartialEq, Eq, Hash)]
pub struct MouseState {
    pub buttons: u32,
}

/// A controller button.
#[derive(Clone, Copy, Debug, PartialEq, Eq, Hash)]
pub enum Button {
    A,
    B,
    X,
    Y,
    Back,
    Guide,
    Start,
    LeftStick,
    RightStick,
    LeftShoulder,
    RightShoulder,
    DPadUp,
    DPadDown,
    DPadLeft,
    DPadRight,
    Misc1,
    Paddle1,
    Paddle2,
    Paddle3,
    Paddle4,
    Touchpad,
}

/// A controller axis.
#[derive(Clone, Copy, Debug, PartialEq, Eq, Hash)]
pub enum Axis {
    LeftX,
    LeftY,
    RightX,
    RightY,
    TriggerLeft,
    TriggerRight,
}

} // verus!
