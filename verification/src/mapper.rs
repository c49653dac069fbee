//! The stateful translator from canonical controller events to a discrete
//! action stream.
//!
//! Digital events (keys, gamepad buttons, mouse button transitions) map 1:1
//! through static tables. Analog axis samples (gamepad sticks, pointer-locked
//! mouse motion) pass through a deadzone and a per-axis hysteresis slot, so
//! that a continuous axis behaves like a key: crossing into the deadzone
//! releases the held action, a newly resolved direction releases the old
//! action before pressing the new one, and a repeated direction emits
//! nothing.

use vstd::prelude::*;

use crate::message::{
    Action, ControllerMessage, Direction, GamepadButton, GamepadStick, GamepadTrigger, Key,
    MapperMessage, MilliVec, MouseButton,
};

verus! {

/// An analog axis tracked by the mapper: one hysteresis slot exists per
/// axis.
#[derive(Debug, Clone, Copy, PartialEq, Eq, Structural)]
pub enum Axis {
    LeftStick,
    RightStick,
    MouseLook,
}

/// The action a key maps to.
pub open spec fn spec_key_to_action(key: Key) -> Action {
    match key {
        Key::ArrowRight => Action::Right,
        Key::ArrowLeft => Action::Left,
        Key::ArrowUp => Action::Up,
        Key::ArrowDown => Action::Down,
        Key::Ctrl => Action::Use,
        Key::Space => Action::Fire,
        Key::Shift => Action::Speed,
        Key::Escape => Action::Escape,
        Key::Enter => Action::Enter,
        Key::Letter(c) => if c == 'W' {
            Action::Up
        } else if c == 'S' {
            Action::Down
        } else if c == 'A' {
            Action::StrafeLeft
        } else if c == 'D' {
            Action::StrafeRight
        } else {
            Action::KeyLetter(c)
        },
    }
}

/// Maps a key 1:1 to its action. WASD letters act as movement; any other
/// letter is passed through as itself.
pub fn key_to_action(key: Key) -> (a: Action)
    ensures
        a == spec_key_to_action(key),
{
    match key {
        Key::ArrowRight => Action::Right,
        Key::ArrowLeft => Action::Left,
        Key::ArrowUp => Action::Up,
        Key::ArrowDown => Action::Down,
        Key::Ctrl => Action::Use,
        Key::Space => Action::Fire,
        Key::Shift => Action::Speed,
        Key::Escape => Action::Escape,
        Key::Enter => Action::Enter,
        Key::Letter(c) => if c == 'W' {
            Action::Up
        } else if c == 'S' {
            Action::Down
        } else if c == 'A' {
            Action::StrafeLeft
        } else if c == 'D' {
            Action::StrafeRight
        } else {
            Action::KeyLetter(c)
        },
    }
}

/// The movement action of a cardinal direction: up/down move, left/right
/// strafe.
pub open spec fn spec_movement_action(dir: Direction) -> Action {
    match dir {
        Direction::Up => Action::Up,
        Direction::Down => Action::Down,
        Direction::Left => Action::StrafeLeft,
        Direction::Right => Action::StrafeRight,
    }
}

/// Maps a cardinal direction to a movement action (left stick, D-pad).
pub fn movement_dir_to_action(dir: Direction) -> (a: Action)
    ensures
        a == spec_movement_action(dir),
{
    match dir {
        Direction::Up => Action::Up,
        Direction::Down => Action::Down,
        Direction::Left => Action::StrafeLeft,
        Direction::Right => Action::StrafeRight,
    }
}

/// The camera action of a cardinal direction: only left/right turn the
/// camera; up/down are ignored.
pub open spec fn spec_camera_action(dir: Direction) -> Option<Action> {
    match dir {
        Direction::Left => Some(Action::Left),
        Direction::Right => Some(Action::Right),
        _ => None,
    }
}

/// Maps a cardinal direction to a camera action (right stick, mouse look).
pub fn camera_dir_to_action(dir: Direction) -> (a: Option<Action>)
    ensures
        a == spec_camera_action(dir),
{
    match dir {
        Direction::Left => Some(Action::Left),
        Direction::Right => Some(Action::Right),
        _ => None,
    }
}

/// The action a gamepad button maps to: D-pad moves, the face cluster covers
/// speed/enter/use, and the right shoulder trigger fires.
pub open spec fn spec_gamepad_button_action(button: GamepadButton) -> Option<Action> {
    match button {
        GamepadButton::DPad(dir) => Some(spec_movement_action(dir)),
        GamepadButton::Menu => Some(Action::Escape),
        GamepadButton::Cluster(dir) => match dir {
            Direction::Left => Some(Action::Speed),
            Direction::Down => Some(Action::Enter),
            Direction::Right => Some(Action::Use),
            _ => None,
        },
        GamepadButton::Trigger(trigger) => match trigger {
            GamepadTrigger::Right => Some(Action::Fire),
            _ => None,
        },
    }
}

/// Maps a gamepad button to its action, if it has one.
pub fn gamepad_button_to_action(button: GamepadButton) -> (a: Option<Action>)
    ensures
        a == spec_gamepad_button_action(button),
{
    match button {
        GamepadButton::DPad(dir) => Some(movement_dir_to_action(dir)),
        GamepadButton::Menu => Some(Action::Escape),
        GamepadButton::Cluster(dir) => match dir {
            Direction::Left => Some(Action::Speed),
            Direction::Down => Some(Action::Enter),
            Direction::Right => Some(Action::Use),
            _ => None,
        },
        GamepadButton::Trigger(trigger) => match trigger {
            GamepadTrigger::Right => Some(Action::Fire),
            _ => None,
        },
    }
}

/// The nearest cardinal direction of a nonzero vector, splitting the plane
/// along its diagonals; the zero vector has no direction. Positive y points
/// down, per graphics conventions.
pub open spec fn spec_approximate_direction(x: int, y: int) -> Option<Direction> {
    if x == 0 && y == 0 {
        None
    } else {
        let left_or_up = x < -y;
        let right_or_up = -x < -y;
        if left_or_up && right_or_up {
            Some(Direction::Up)
        } else if left_or_up {
            Some(Direction::Left)
        } else if right_or_up {
            Some(Direction::Right)
        } else {
            Some(Direction::Down)
        }
    }
}

/// Approximates a vector to the nearest of the four cardinal directions.
pub fn approximate_direction(v: MilliVec) -> (r: Option<Direction>)
    ensures
        r == spec_approximate_direction(v.x as int, v.y as int),
{
    if v.x == 0 && v.y == 0 {
        return None;
    }
    let x = v.x as i64;
    let y = v.y as i64;
    let left_or_up = x < -y;
    let right_or_up = -x < -y;
    if left_or_up && right_or_up {
        Some(Direction::Up)
    } else if left_or_up {
        Some(Direction::Left)
    } else if right_or_up {
        Some(Direction::Right)
    } else {
        Some(Direction::Down)
    }
}

/// Whether a stick sample lies inside the stick deadzone: its magnitude is
/// below 0.1, i.e. the squared magnitude in thousandths is below 100 * 100.
pub open spec fn stick_in_deadzone(x: int, y: int) -> bool {
    x * x + y * y < 10000
}

/// Tests a stick sample against the stick deadzone.
pub fn check_stick_deadzone(v: MilliVec) -> (r: bool)
    ensures
        r == stick_in_deadzone(v.x as int, v.y as int),
{
    if v.x > -100 && v.x < 100 && v.y > -100 && v.y < 100 {
        proof {
            assert(0 <= v.x as int * v.x as int <= 9801 && 0 <= v.y as int * v.y as int
                <= 9801) by (nonlinear_arith)
                requires
                    -100 < (v.x as int) && (v.x as int) < 100,
                    -100 < (v.y as int) && (v.y as int) < 100,
            ;
        }
        v.x * v.x + v.y * v.y < 10000
    } else {
        proof {
            assert(v.x as int * v.x as int + v.y as int * v.y as int >= 10000) by (nonlinear_arith)
                requires
                    v.x as int <= -100 || v.x as int >= 100 || v.y as int <= -100 || v.y as int
                        >= 100,
            ;
        }
        false
    }
}

/// Whether a mouse motion lies inside the mouse deadzone: the magnitude of
/// its horizontal component is below 0.05, i.e. below 50 thousandths.
pub open spec fn mouse_in_deadzone(x: int) -> bool {
    -50 < x && x < 50
}

/// Tests a mouse motion against the mouse deadzone.
pub fn check_mouse_deadzone(delta: MilliVec) -> (r: bool)
    ensures
        r == mouse_in_deadzone(delta.x as int),
{
    delta.x > -50 && delta.x < 50
}

/// The axis a stick feeds.
pub open spec fn axis_of_stick(stick: GamepadStick) -> Axis {
    match stick {
        GamepadStick::Left => Axis::LeftStick,
        GamepadStick::Right => Axis::RightStick,
    }
}

/// The action a sample on the given axis resolves to, if any: the nearest
/// cardinal direction put through the axis's table. The left stick uses the
/// movement table, the right stick and mouse look the camera table.
pub open spec fn axis_resolved(axis: Axis, x: int, y: int) -> Option<Action> {
    match spec_approximate_direction(x, y) {
        None => None,
        Some(dir) => match axis {
            Axis::LeftStick => Some(spec_movement_action(dir)),
            _ => spec_camera_action(dir),
        },
    }
}

/// A `down = true` message for an action.
pub open spec fn msg_down(a: Action) -> MapperMessage {
    MapperMessage::Action { action: a, down: true }
}

/// A `down = false` message for an action.
pub open spec fn msg_up(a: Action) -> MapperMessage {
    MapperMessage::Action { action: a, down: false }
}

/// What one axis sample emits, given the slot's held action, whether the
/// sample is in the deadzone, and the action it resolves to:
///
/// - inside the deadzone, the held action (if any) is released;
/// - a sample resolving to nothing emits nothing and leaves the slot alone;
/// - a sample resolving to the held action emits nothing (idempotence);
/// - a sample resolving to a new action releases the old one first, then
///   presses the new one.
pub open spec fn slot_emits(held: Option<Action>, dead: bool, resolved: Option<Action>) -> Seq<
    MapperMessage,
> {
    if dead {
        match held {
            Some(a) => seq![msg_up(a)],
            None => seq![],
        }
    } else {
        match resolved {
            None => seq![],
            Some(a) => if held == Some(a) {
                seq![]
            } else {
                match held {
                    Some(b) => seq![msg_up(b), msg_down(a)],
                    None => seq![msg_down(a)],
                }
            },
        }
    }
}

/// The slot's held action after one axis sample.
pub open spec fn slot_after(held: Option<Action>, dead: bool, resolved: Option<Action>) -> Option<
    Action,
> {
    if dead {
        None
    } else {
        match resolved {
            None => held,
            Some(a) => Some(a),
        }
    }
}

/// The mapper's state: one hysteresis slot per analog axis, the set of mouse
/// buttons currently held, and the policy flag for re-firing while a mouse
/// button is held.
#[derive(Debug, Clone, Copy, PartialEq, Eq, Structural)]
pub struct Mapper {
    /// The action currently held for the left stick, if any.
    pub left_stick_held: Option<Action>,
    /// The action currently held for the right stick, if any.
    pub right_stick_held: Option<Action>,
    /// The action currently held for pointer-locked mouse look, if any.
    pub mouse_look_held: Option<Action>,
    /// Whether the left mouse button is currently held.
    pub mouse_left_down: bool,
    /// Whether the middle mouse button is currently held.
    pub mouse_middle_down: bool,
    /// Whether the right mouse button is currently held.
    pub mouse_right_down: bool,
    /// Whether a held mouse button re-fires on every pointer-locked motion
    /// event, in addition to the press/release pair emitted on the button
    /// transition itself.
    pub refire_on_motion: bool,
}

impl Mapper {
    /// The held action for an axis.
    pub open spec fn held_for(self, axis: Axis) -> Option<Action> {
        match axis {
            Axis::LeftStick => self.left_stick_held,
            Axis::RightStick => self.right_stick_held,
            Axis::MouseLook => self.mouse_look_held,
        }
    }

    /// Whether a mouse button is currently held.
    pub open spec fn button_down(self, button: MouseButton) -> bool {
        match button {
            MouseButton::Left => self.mouse_left_down,
            MouseButton::Middle => self.mouse_middle_down,
            MouseButton::Right => self.mouse_right_down,
        }
    }

    /// Whether any mouse button is currently held.
    pub open spec fn any_button_down(self) -> bool {
        self.mouse_left_down || self.mouse_middle_down || self.mouse_right_down
    }

    /// Whether no axis holds an action: the mapper is in its neutral,
    /// all-released state.
    pub open spec fn neutral(self) -> bool {
        self.left_stick_held is None && self.right_stick_held is None && self.mouse_look_held
            is None
    }

    /// A fresh mapper: nothing held.
    pub fn new(refire_on_motion: bool) -> (m: Mapper)
        ensures
            m == (Mapper {
                left_stick_held: None,
                right_stick_held: None,
                mouse_look_held: None,
                mouse_left_down: false,
                mouse_middle_down: false,
                mouse_right_down: false,
                refire_on_motion,
            }),
    {
        Mapper {
            left_stick_held: None,
            right_stick_held: None,
            mouse_look_held: None,
            mouse_left_down: false,
            mouse_middle_down: false,
            mouse_right_down: false,
            refire_on_motion,
        }
    }
}

/// The messages one controller event makes the mapper emit, in order.
pub open spec fn step_emits(m: Mapper, msg: ControllerMessage) -> Seq<MapperMessage> {
    match msg {
        ControllerMessage::Key { key, down } => seq![
            MapperMessage::Action { action: spec_key_to_action(key), down },
        ],
        ControllerMessage::GamepadButton { button, down } => {
            match spec_gamepad_button_action(button) {
                Some(action) => seq![MapperMessage::Action { action, down }],
                None => seq![],
            }
        },
        ControllerMessage::GamepadStick { stick, value } => {
            let axis = axis_of_stick(stick);
            slot_emits(
                m.held_for(axis),
                stick_in_deadzone(value.x as int, value.y as int),
                axis_resolved(axis, value.x as int, value.y as int),
            )
        },
        ControllerMessage::MouseMove { delta, pointer_locked } => {
            if pointer_locked {
                let base = slot_emits(
                    m.mouse_look_held,
                    mouse_in_deadzone(delta.x as int),
                    axis_resolved(Axis::MouseLook, delta.x as int, delta.y as int),
                );
                if m.refire_on_motion && m.any_button_down() {
                    base + seq![msg_down(Action::Fire)]
                } else {
                    base
                }
            } else {
                match m.mouse_look_held {
                    Some(a) => seq![msg_up(a)],
                    None => seq![],
                }
            }
        },
        ControllerMessage::MouseButton { button, down } => {
            if down {
                seq![msg_down(Action::Fire)]
            } else if m.button_down(button) {
                seq![msg_up(Action::Fire)]
            } else {
                seq![]
            }
        },
    }
}

/// The mapper's state after one controller event.
pub open spec fn step_state(m: Mapper, msg: ControllerMessage) -> Mapper {
    match msg {
        ControllerMessage::Key { .. } => m,
        ControllerMessage::GamepadButton { .. } => m,
        ControllerMessage::GamepadStick { stick, value } => {
            let axis = axis_of_stick(stick);
            let held = slot_after(
                m.held_for(axis),
                stick_in_deadzone(value.x as int, value.y as int),
                axis_resolved(axis, value.x as int, value.y as int),
            );
            match stick {
                GamepadStick::Left => Mapper { left_stick_held: held, ..m },
                GamepadStick::Right => Mapper { right_stick_held: held, ..m },
            }
        },
        ControllerMessage::MouseMove { delta, pointer_locked } => {
            if pointer_locked {
                Mapper {
                    mouse_look_held: slot_after(
                        m.mouse_look_held,
                        mouse_in_deadzone(delta.x as int),
                        axis_resolved(Axis::MouseLook, delta.x as int, delta.y as int),
                    ),
                    ..m
                }
            } else {
                Mapper { mouse_look_held: None, ..m }
            }
        },
        ControllerMessage::MouseButton { button, down } => {
            match button {
                MouseButton::Left => Mapper { mouse_left_down: down, ..m },
                MouseButton::Middle => Mapper { mouse_middle_down: down, ..m },
                MouseButton::Right => Mapper { mouse_right_down: down, ..m },
            }
        },
    }
}

/// Applies one axis sample to a slot: appends what the sample emits and
/// returns the new held action.
fn apply_axis_sample(
    held: Option<Action>,
    dead: bool,
    resolved: Option<Action>,
    out: &mut Vec<MapperMessage>,
) -> (new_held: Option<Action>)
    ensures
        new_held == slot_after(held, dead, resolved),
        final(out)@ == old(out)@ + slot_emits(held, dead, resolved),
{
    if dead {
        if let Some(a) = held {
            out.push(MapperMessage::Action { action: a, down: false });
        }
        proof {
            assert(final(out)@ =~= old(out)@ + slot_emits(held, dead, resolved));
        }
        None
    } else {
        match resolved {
            None => {
                proof {
                    assert(final(out)@ =~= old(out)@ + slot_emits(held, dead, resolved));
                }
                held
            },
            Some(a) => {
                if held == Some(a) {
                    proof {
                        assert(final(out)@ =~= old(out)@ + slot_emits(held, dead, resolved));
                    }
                    Some(a)
                } else {
                    if let Some(b) = held {
                        out.push(MapperMessage::Action { action: b, down: false });
                    }
                    out.push(MapperMessage::Action { action: a, down: true });
                    proof {
                        assert(final(out)@ =~= old(out)@ + slot_emits(held, dead, resolved));
                    }
                    Some(a)
                }
            },
        }
    }
}

impl Mapper {
    /// Feeds one controller event through the mapper, returning the emitted
    /// action messages in order and advancing the hysteresis state.
    pub fn handle(&mut self, msg: ControllerMessage) -> (out: Vec<MapperMessage>)
        ensures
            out@ == step_emits(*old(self), msg),
            *final(self) == step_state(*old(self), msg),
    {
        let mut out: Vec<MapperMessage> = Vec::new();
        match msg {
            ControllerMessage::Key { key, down } => {
                out.push(MapperMessage::Action { action: key_to_action(key), down });
                proof {
                    assert(out@ =~= step_emits(*old(self), msg));
                }
            },
            ControllerMessage::GamepadButton { button, down } => {
                if let Some(action) = gamepad_button_to_action(button) {
                    out.push(MapperMessage::Action { action, down });
                }
                proof {
                    assert(out@ =~= step_emits(*old(self), msg));
                }
            },
            ControllerMessage::GamepadStick { stick, value } => {
                let dead = check_stick_deadzone(value);
                let resolved = match approximate_direction(value) {
                    None => None,
                    Some(dir) => match stick {
                        GamepadStick::Left => Some(movement_dir_to_action(dir)),
                        GamepadStick::Right => camera_dir_to_action(dir),
                    },
                };
                match stick {
                    GamepadStick::Left => {
                        let held = self.left_stick_held;
                        self.left_stick_held = apply_axis_sample(held, dead, resolved, &mut out);
                    },
                    GamepadStick::Right => {
                        let held = self.right_stick_held;
                        self.right_stick_held = apply_axis_sample(held, dead, resolved, &mut out);
                    },
                }
                proof {
                    assert(out@ =~= step_emits(*old(self), msg));
                }
            },
            ControllerMessage::MouseMove { delta, pointer_locked } => {
                if pointer_locked {
                    let dead = check_mouse_deadzone(delta);
                    let resolved = match approximate_direction(delta) {
                        None => None,
                        Some(dir) => camera_dir_to_action(dir),
                    };
                    let held = self.mouse_look_held;
                    self.mouse_look_held = apply_axis_sample(held, dead, resolved, &mut out);
                    if self.refire_on_motion && (self.mouse_left_down || self.mouse_middle_down
                        || self.mouse_right_down) {
                        out.push(MapperMessage::Action { action: Action::Fire, down: true });
                    }
                } else {
                    if let Some(a) = self.mouse_look_held {
                        out.push(MapperMessage::Action { action: a, down: false });
                    }
                    self.mouse_look_held = None;
                }
                proof {
                    assert(out@ =~= step_emits(*old(self), msg));
                }
            },
            ControllerMessage::MouseButton { button, down } => {
                let was_down = match button {
                    MouseButton::Left => self.mouse_left_down,
                    MouseButton::Middle => self.mouse_middle_down,
                    MouseButton::Right => self.mouse_right_down,
                };
                if down {
                    out.push(MapperMessage::Action { action: Action::Fire, down: true });
                } else if was_down {
                    out.push(MapperMessage::Action { action: Action::Fire, down: false });
                }
                match button {
                    MouseButton::Left => self.mouse_left_down = down,
                    MouseButton::Middle => self.mouse_middle_down = down,
                    MouseButton::Right => self.mouse_right_down = down,
                }
                proof {
                    assert(out@ =~= step_emits(*old(self), msg));
                }
            },
        }
        out
    }
}

} // verus!
