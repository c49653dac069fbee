//! The canonical vocabulary exchanged between the pipeline stages: keys,
//! gamepad controls, mouse buttons, fixed-point analog vectors, and the
//! engine-facing actions.

use vstd::prelude::*;

verus! {

/// A key on the keyboard.
#[derive(Debug, Clone, Copy, PartialEq, Eq, Hash, Structural)]
pub enum Key {
    ArrowRight,
    ArrowLeft,
    ArrowUp,
    ArrowDown,
    Escape,
    Enter,
    Shift,
    Space,
    Ctrl,
    Letter(char),
}

/// A trigger on the gamepad.
#[derive(Debug, Clone, Copy, PartialEq, Eq, Hash, Structural)]
pub enum GamepadTrigger {
    Left,
    Right,
}

/// One of the four cardinal directions, in graphics conventions: positive y
/// points down, so `Up` is the direction of negative y.
#[derive(Debug, Clone, Copy, PartialEq, Eq, Hash, Structural)]
pub enum Direction {
    Up,
    Down,
    Left,
    Right,
}

/// A button on the gamepad, following the standard-gamepad layout.
#[derive(Debug, Clone, Copy, PartialEq, Eq, Hash, Structural)]
pub enum GamepadButton {
    DPad(Direction),
    Menu,
    Cluster(Direction),
    Trigger(GamepadTrigger),
}

/// A stick on the gamepad.
#[derive(Debug, Clone, Copy, PartialEq, Eq, Hash, Structural)]
pub enum GamepadStick {
    Left,
    Right,
}

/// A button on the mouse.
#[derive(Debug, Clone, Copy, PartialEq, Eq, Hash, Structural)]
pub enum MouseButton {
    Left,
    Middle,
    Right,
}

/// A 2D vector in fixed-point coordinates: each component counts
/// thousandths, so the unit stick deflection `1.0` is stored as `1000`.
#[derive(Debug, Clone, Copy, PartialEq, Eq, Hash, Structural)]
pub struct MilliVec {
    /// Horizontal component, in thousandths; positive points right.
    pub x: i32,
    /// Vertical component, in thousandths; positive points down.
    pub y: i32,
}

/// A game action to take. Usually this is what keys are mapped to.
#[derive(Debug, Clone, Copy, PartialEq, Eq, Hash, Structural)]
pub enum Action {
    Right,
    Left,
    Up,
    Down,
    StrafeLeft,
    StrafeRight,
    Escape,
    Enter,
    Use,
    Fire,
    Speed,
    KeyLetter(char),
}

/// A message sent from an input source (controller or mirror window) to the
/// mapper.
#[derive(Debug, Clone, Copy, PartialEq, Eq, Hash, Structural)]
pub enum ControllerMessage {
    /// A keyboard key transition.
    Key { key: Key, down: bool },
    /// A gamepad button transition.
    GamepadButton { button: GamepadButton, down: bool },
    /// A gamepad stick sample.
    GamepadStick { stick: GamepadStick, value: MilliVec },
    /// A relative mouse motion, tagged with the pointer-lock state at the
    /// time it was observed.
    MouseMove { delta: MilliVec, pointer_locked: bool },
    /// A mouse button transition.
    MouseButton { button: MouseButton, down: bool },
}

/// A message sent from the mapper to the engine bridge.
#[derive(Debug, Clone, Copy, PartialEq, Eq, Hash, Structural)]
pub enum MapperMessage {
    Action { action: Action, down: bool },
}

/// A message sent from the engine bridge to the mirror window.
#[derive(Debug, Clone, PartialEq, Eq)]
pub enum GUIMessage {
    /// A full-resolution RGB frame, three bytes per pixel in row-major order.
    Frame(Vec<u8>),
    /// A new window title.
    UpdateTitle(String),
}

} // verus!
