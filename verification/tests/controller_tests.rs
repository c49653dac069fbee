use lighthouse_doom::controller::{convert_gamepad_axis2d, convert_gamepad_button, convert_key};
use lighthouse_doom::message::{Direction, GamepadButton, GamepadStick, GamepadTrigger, Key};

#[test]
fn named_key_codes() {
    assert_eq!(convert_key("ArrowLeft"), Some(Key::ArrowLeft));
    assert_eq!(convert_key("ArrowRight"), Some(Key::ArrowRight));
    assert_eq!(convert_key("ArrowUp"), Some(Key::ArrowUp));
    assert_eq!(convert_key("ArrowDown"), Some(Key::ArrowDown));
    assert_eq!(convert_key("Enter"), Some(Key::Enter));
    assert_eq!(convert_key("Escape"), Some(Key::Escape));
    assert_eq!(convert_key("ShiftLeft"), Some(Key::Shift));
    assert_eq!(convert_key("ShiftRight"), Some(Key::Shift));
    assert_eq!(convert_key("Space"), Some(Key::Space));
    assert_eq!(convert_key("CtrlLeft"), Some(Key::Ctrl));
    assert_eq!(convert_key("CtrlRight"), Some(Key::Ctrl));
}

#[test]
fn letter_and_digit_codes() {
    assert_eq!(convert_key("KeyW"), Some(Key::Letter('W')));
    assert_eq!(convert_key("KeyA"), Some(Key::Letter('A')));
    assert_eq!(convert_key("Digit5"), Some(Key::Letter('5')));
    assert_eq!(convert_key("Digit0"), Some(Key::Letter('0')));
}

#[test]
fn unmapped_key_codes_are_dropped() {
    assert_eq!(convert_key("Tab"), None);
    assert_eq!(convert_key("F11"), None);
    assert_eq!(convert_key(""), None);
    // Bare prefixes carry no letter and are dropped rather than read past
    // the end.
    assert_eq!(convert_key("Digit"), None);
    assert_eq!(convert_key("Key"), None);
}

#[test]
fn gamepad_button_indices() {
    assert_eq!(
        convert_gamepad_button(0),
        Some(GamepadButton::Cluster(Direction::Down))
    );
    assert_eq!(
        convert_gamepad_button(1),
        Some(GamepadButton::Cluster(Direction::Right))
    );
    assert_eq!(
        convert_gamepad_button(2),
        Some(GamepadButton::Cluster(Direction::Left))
    );
    assert_eq!(
        convert_gamepad_button(3),
        Some(GamepadButton::Cluster(Direction::Up))
    );
    assert_eq!(
        convert_gamepad_button(6),
        Some(GamepadButton::Trigger(GamepadTrigger::Left))
    );
    assert_eq!(
        convert_gamepad_button(7),
        Some(GamepadButton::Trigger(GamepadTrigger::Right))
    );
    assert_eq!(convert_gamepad_button(12), Some(GamepadButton::DPad(Direction::Up)));
    assert_eq!(convert_gamepad_button(13), Some(GamepadButton::DPad(Direction::Down)));
    assert_eq!(convert_gamepad_button(14), Some(GamepadButton::DPad(Direction::Left)));
    assert_eq!(convert_gamepad_button(15), Some(GamepadButton::DPad(Direction::Right)));
    assert_eq!(convert_gamepad_button(4), None);
    assert_eq!(convert_gamepad_button(5), None);
    assert_eq!(convert_gamepad_button(16), None);
}

#[test]
fn gamepad_axis_indices() {
    assert_eq!(convert_gamepad_axis2d(0), Some(GamepadStick::Left));
    assert_eq!(convert_gamepad_axis2d(1), Some(GamepadStick::Right));
    assert_eq!(convert_gamepad_axis2d(2), None);
}
