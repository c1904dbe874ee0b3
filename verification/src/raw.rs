//! Raw events, as an event source yields them.

use crate::input::{Axis, Button, Keycode, Mod, MouseButton, MouseState};
use vstd::prelude::*;

verus! {

/// One input or system notification drained from the event source. An event
/// is consumed once, in the poll cycle that yielded it.
#[allow(inconsistent_fields)]
#[derive(Clone, Copy, Debug, PartialEq, Eq)]
pub enum RawEvent {
    /// The user or the system asks the application to quit.
    Quit,
    /// A key went down. `code` is `None` where the source knows no code for
    /// the key.
    KeyDown { code: Option<Keycode>, modifiers: Mod, repeat: bool },
    /// A key came up.
    KeyUp { code: Option<Keycode>, modifiers: Mod, repeat: bool },
    MouseButtonDown { button: MouseButton, x: i32, y: i32 },
    MouseButtonUp { button: MouseButton, x: i32, y: i32 },
    MouseMotion { state: MouseState, x: i32, y: i32, dx: i32, dy: i32 },
    MouseWheel { dx: i32, dy: i32 },
    ControllerButtonDown { button: Button, device: i32 },
    ControllerButtonUp { button: Button, device: i32 },
    ControllerAxisMotion { axis: Axis, value: i16, device: i32 },
    WindowFocusGained,
    WindowFocusLost,
    WindowResized { width: u32, height: u32 },
    /// Anything else. Such events are dropped.
    Other,
}

} // verus!
