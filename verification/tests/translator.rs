use event_loop::input::{Axis, Button, Keycode, Mod, MouseButton, MouseState, ESCAPE};
use event_loop::raw::RawEvent;
use event_loop::translator::{translate, Callback, Dispatch};

fn no_mod() -> Mod {
    Mod { bits: 0 }
}

#[test]
fn escape_code_is_twenty_seven() {
    assert_eq!(ESCAPE, 27);
    assert_eq!(Keycode::escape(), Keycode { code: 27 });
    assert_eq!(Keycode::new(97), Keycode { code: 97 });
}

#[test]
fn quit_asks_the_handler() {
    assert_eq!(translate(RawEvent::Quit), Dispatch::Quit);
}

#[test]
fn key_down_is_forwarded_with_its_arguments() {
    let event = RawEvent::KeyDown {
        code: Some(Keycode::new(97)),
        modifiers: Mod { bits: 0x0041 },
        repeat: true,
    };
    assert_eq!(
        translate(event),
        Dispatch::Forward(Callback::KeyDown {
            code: Keycode { code: 97 },
            modifiers: Mod { bits: 0x0041 },
            repeat: true,
        })
    );
}

#[test]
fn escape_down_exits_and_is_not_forwarded() {
    let event = RawEvent::KeyDown { code: Some(Keycode::escape()), modifiers: no_mod(), repeat: false };
    assert_eq!(translate(event), Dispatch::Exit);
}

#[test]
fn escape_down_exits_whatever_modifiers_and_repeat() {
    let event = RawEvent::KeyDown {
        code: Some(Keycode { code: 27 }),
        modifiers: Mod { bits: 0xffff },
        repeat: true,
    };
    assert_eq!(translate(event), Dispatch::Exit);
}

#[test]
fn neighbours_of_escape_are_forwarded() {
    for code in [26, 28, -27, 0, i32::MAX, i32::MIN] {
        let event = RawEvent::KeyDown { code: Some(Keycode::new(code)), modifiers: no_mod(), repeat: false };
        assert_eq!(
            translate(event),
            Dispatch::Forward(Callback::KeyDown {
                code: Keycode { code },
                modifiers: no_mod(),
                repeat: false
            })
        );
    }
}

#[test]
fn escape_up_is_forwarded_like_any_key() {
    let event = RawEvent::KeyUp { code: Some(Keycode::escape()), modifiers: no_mod(), repeat: false };
    assert_eq!(
        translate(event),
        Dispatch::Forward(Callback::KeyUp {
            code: Keycode { code: 27 },
            modifiers: no_mod(),
            repeat: false
        })
    );
}

#[test]
fn key_without_code_is_dropped() {
    let down = RawEvent::KeyDown { code: None, modifiers: no_mod(), repeat: false };
    let up = RawEvent::KeyUp { code: None, modifiers: no_mod(), repeat: true };
    assert_eq!(translate(down), Dispatch::Discard);
    assert_eq!(translate(up), Dispatch::Discard);
}

#[test]
fn mouse_buttons_are_forwarded() {
    assert_eq!(
        translate(RawEvent::MouseButtonDown { button: MouseButton::Left, x: 10, y: -20 }),
        Dispatch::Forward(Callback::MouseButtonDown { button: MouseButton::Left, x: 10, y: -20 })
    );
    assert_eq!(
        translate(RawEvent::MouseButtonUp { button: MouseButton::X2, x: 0, y: 7 }),
        Dispatch::Forward(Callback::MouseButtonUp { button: MouseButton::X2, x: 0, y: 7 })
    );
}

#[test]
fn mouse_motion_and_wheel_are_forwarded() {
    assert_eq!(
        translate(RawEvent::MouseMotion {
            state: MouseState { buttons: 5 },
            x: 1,
            y: 2,
            dx: -3,
            dy: 4
        }),
        Dispatch::Forward(Callback::MouseMotion {
            state: MouseState { buttons: 5 },
            x: 1,
            y: 2,
            dx: -3,
            dy: 4
        })
    );
    assert_eq!(
        translate(RawEvent::MouseWheel { dx: 0, dy: -1 }),
        Dispatch::Forward(Callback::MouseWheel { dx: 0, dy: -1 })
    );
}

#[test]
fn controller_events_are_forwarded() {
    assert_eq!(
        translate(RawEvent::ControllerButtonDown { button: Button::Start, device: 2 }),
        Dispatch::Forward(Callback::ControllerButtonDown { button: Button::Start, device: 2 })
    );
    assert_eq!(
        translate(RawEvent::ControllerButtonUp { button: Button::DPadLeft, device: 0 }),
        Dispatch::Forward(Callback::ControllerButtonUp { button: Button::DPadLeft, device: 0 })
    );
    assert_eq!(
        translate(RawEvent::ControllerAxisMotion {
            axis: Axis::TriggerRight,
            value: i16::MIN,
            device: 1
        }),
        Dispatch::Forward(Callback::ControllerAxis {
            axis: Axis::TriggerRight,
            value: i16::MIN,
            device: 1
        })
    );
}

#[test]
fn focus_changes_are_forwarded_as_gained_or_lost() {
    assert_eq!(
        translate(RawEvent::WindowFocusGained),
        Dispatch::Forward(Callback::Focus { gained: true })
    );
    assert_eq!(
        translate(RawEvent::WindowFocusLost),
        Dispatch::Forward(Callback::Focus { gained: false })
    );
}

#[test]
fn resize_keeps_width_and_height() {
    assert_eq!(
        translate(RawEvent::WindowResized { width: 1920, height: 1080 }),
        Dispatch::Forward(Callback::Resize { width: 1920, height: 1080 })
    );
    assert_eq!(
        translate(RawEvent::WindowResized { width: u32::MAX, height: 0 }),
        Dispatch::Forward(Callback::Resize { width: u32::MAX, height: 0 })
    );
}

#[test]
fn other_events_are_dropped() {
    assert_eq!(translate(RawEvent::Other), Dispatch::Discard);
}
