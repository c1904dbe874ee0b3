//! The event translator: which callback, if any, a raw event is turned into.

use crate::input::{Axis, Button, Keycode, Mod, MouseButton, MouseState, ESCAPE};
use crate::raw::RawEvent;
use vstd::prelude::*;

verus! {

/// One call of an input callback of the handler, with its arguments.
#[allow(inconsistent_fields)]
#[derive(Clone, Copy, Debug, PartialEq, Eq)]
pub enum Callback {
    KeyDown { code: Keycode, modifiers: Mod, repeat: bool },
    KeyUp { code: Keycode, modifiers: Mod, repeat: bool },
    MouseButtonDown { button: MouseButton, x: i32, y: i32 },
    MouseButtonUp { button: MouseButton, x: i32, y: i32 },
    MouseMotion { state: MouseState, x: i32, y: i32, dx: i32, dy: i32 },
    MouseWheel { dx: i32, dy: i32 },
    ControllerButtonDown { button: Button, device: i32 },
    ControllerButtonUp { button: Button, device: i32 },
    ControllerAxis { axis: Axis, value: i16, device: i32 },
    Focus { gained: bool },
    Resize { width: u32, height: u32 },
}

/// What the loop does with one raw event.
#[derive(Clone, Copy, Debug, PartialEq, Eq)]
pub enum Dispatch {
    /// Drop the event; the handler is not told.
    Discard,
    /// Stop the loop after this iteration without asking the handler. This is
    /// the fixed answer to the escape key going down, and is not
    /// configurable.
    Exit,
    /// Ask the handler whether a quit request may be refused.
    Quit,
    /// Call one input callback.
    Forward(Callback),
}

/// What the loop does with `event`.
///
/// The escape key going down is checked first and never forwarded. A key
/// event without a key code is dropped, as every event of no known kind is.
pub open spec fn dispatch_of(event: RawEvent) -> Dispatch {
    match event {
        RawEvent::Quit => Dispatch::Quit,
        RawEvent::KeyDown { code: Some(code), modifiers, repeat } => if code.is_escape() {
            Dispatch::Exit
        } else {
            Dispatch::Forward(Callback::KeyDown { code, modifiers, repeat })
        },
        RawEvent::KeyUp { code: Some(code), modifiers, repeat } => Dispatch::Forward(
            Callback::KeyUp { code, modifiers, repeat },
        ),
        RawEvent::MouseButtonDown { button, x, y } => Dispatch::Forward(
            Callback::MouseButtonDown { button, x, y },
        ),
        RawEvent::MouseButtonUp { button, x, y } => Dispatch::Forward(
            Callback::MouseButtonUp { button, x, y },
        ),
        RawEvent::MouseMotion { state, x, y, dx, dy } => Dispatch::Forward(
            Callback::MouseMotion { state, x, y, dx, dy },
        ),
        RawEvent::MouseWheel { dx, dy } => Dispatch::Forward(Callback::MouseWheel { dx, dy }),
        RawEvent::ControllerButtonDown { button, device } => Dispatch::Forward(
            Callback::ControllerButtonDown { button, device },
        ),
        RawEvent::ControllerButtonUp { button, device } => Dispatch::Forward(
            Callback::ControllerButtonUp { button, device },
        ),
        RawEvent::ControllerAxisMotion { axis, value, device } => Dispatch::Forward(
            Callback::ControllerAxis { axis, value, device },
        ),
        RawEvent::WindowFocusGained => Dispatch::Forward(Callback::Focus { gained: true }),
        RawEvent::WindowFocusLost => Dispatch::Forward(Callback::Focus { gained: false }),
        RawEvent::WindowResized { width, height } => Dispatch::Forward(
            Callback::Resize { width, height },
        ),
        RawEvent::KeyDown { code: None, .. } => Dispatch::Discard,
        RawEvent::KeyUp { code: None, .. } => Dispatch::Discard,
        RawEvent::Other => Dispatch::Discard,
    }
}

/// Translates one raw event.
pub fn translate(event: RawEvent) -> (d: Dispatch)
    ensures
        d == dispatch_of(event),
{
    match event {
        RawEvent::Quit => Dispatch::Quit,
        RawEvent::KeyDown { code, modifiers, repeat } => match code {
            Some(code) => if code.code == ESCAPE {
                Dispatch::Exit
            } else {
                Dispatch::Forward(Callback::KeyDown { code, modifiers, repeat })
            },
            None => Dispatch::Discard,
        },
        RawEvent::KeyUp { code, modifiers, repeat } => match code {
            Some(code) => Dispatch::Forward(Callback::KeyUp { code, modifiers, repeat }),
            None => Dispatch::Discard,
        },
        RawEvent::MouseButtonDown { button, x, y } => Dispatch::Forward(
            Callback::MouseButtonDown { button, x, y },
        ),
        RawEvent::MouseButtonUp { button, x, y } => Dispatch::Forward(
            Callback::MouseButtonUp { button, x, y },
        ),
        RawEvent::MouseMotion { state, x, y, dx, dy } => Dispatch::Forward(
            Callback::MouseMotion { state, x, y, dx, dy },
        ),
        RawEvent::MouseWheel { dx, dy } => Dispatch::Forward(Callback::MouseWheel { dx, dy }),
        RawEvent::ControllerButtonDown { button, device } => Dispatch::Forward(
            Callback::ControllerButtonDown { button, device },
        ),
        RawEvent::ControllerButtonUp { button, device } => Dispatch::Forward(
            Callback::ControllerButtonUp { button, device },
        ),
        RawEvent::ControllerAxisMotion { axis, value, device } => Dispatch::Forward(
            Callback::ControllerAxis { axis, value, device },
        ),
        RawEvent::WindowFocusGained => Dispatch::Forward(Callback::Focus { gained: true }),
        RawEvent::WindowFocusLost => Dispatch::Forward(Callback::Focus { gained: false }),
        RawEvent::WindowResized { width, height } => Dispatch::Forward(
            Callback::Resize { width, height },
        ),
        RawEvent::Other => Dispatch::Discard,
    }
}

} // verus!
