//! The action side of the engine bridge: mapping the discrete action stream
//! to the engine's key vocabulary.
//!
//! The engine is polled once per tick for at most one pending action, which
//! must be delivered as a key code of its own vocabulary. The engine's
//! movement and function keys are runtime values of its configuration (they
//! come from the engine's C globals), so they are modelled here by the
//! [`DoomKey`] enum and only turned into raw codes at the last moment, by
//! [`doom_key_code`].

use vstd::prelude::*;

use crate::mapper::spec_key_to_action;
use crate::message::{Action, Key, MapperMessage};

verus! {

/// A key of the engine's control vocabulary. The named keys stand for the
/// engine's configured codes; `Ascii` carries a plain ASCII character code.
#[derive(Debug, Clone, Copy, PartialEq, Eq, Structural)]
pub enum DoomKey {
    Right,
    Left,
    Up,
    Down,
    StrafeLeft,
    StrafeRight,
    Fire,
    Use,
    Speed,
    Escape,
    Enter,
    Ascii(u8),
}

/// The ASCII-lowercase of a character: ASCII uppercase letters map to their
/// lowercase counterpart, everything else is unchanged.
pub open spec fn spec_ascii_lowercase(c: char) -> char {
    if 'A' <= c && c <= 'Z' {
        ((c as u8) + 32) as char
    } else {
        c
    }
}

/// The engine key an action maps to: movement, turning and function actions
/// map to the engine's configured keys; a letter maps to its ASCII-lowercase
/// character code, and a non-ASCII letter maps to nothing.
pub open spec fn spec_action_key(action: Action) -> Option<DoomKey> {
    match action {
        Action::Right => Some(DoomKey::Right),
        Action::Left => Some(DoomKey::Left),
        Action::Up => Some(DoomKey::Up),
        Action::Down => Some(DoomKey::Down),
        Action::StrafeLeft => Some(DoomKey::StrafeLeft),
        Action::StrafeRight => Some(DoomKey::StrafeRight),
        Action::Escape => Some(DoomKey::Escape),
        Action::Enter => Some(DoomKey::Enter),
        Action::Use => Some(DoomKey::Use),
        Action::Fire => Some(DoomKey::Fire),
        Action::Speed => Some(DoomKey::Speed),
        Action::KeyLetter(c) => if (c as u32) < 128 {
            Some(DoomKey::Ascii(spec_ascii_lowercase(c) as u8))
        } else {
            None
        },
    }
}

/// Maps an action to the engine key it is delivered as, if any.
pub fn action_to_doom_key(action: Action) -> (r: Option<DoomKey>)
    ensures
        r == spec_action_key(action),
{
    match action {
        Action::Right => Some(DoomKey::Right),
        Action::Left => Some(DoomKey::Left),
        Action::Up => Some(DoomKey::Up),
        Action::Down => Some(DoomKey::Down),
        Action::StrafeLeft => Some(DoomKey::StrafeLeft),
        Action::StrafeRight => Some(DoomKey::StrafeRight),
        Action::Escape => Some(DoomKey::Escape),
        Action::Enter => Some(DoomKey::Enter),
        Action::Use => Some(DoomKey::Use),
        Action::Fire => Some(DoomKey::Fire),
        Action::Speed => Some(DoomKey::Speed),
        Action::KeyLetter(c) => {
            if (c as u32) < 128 {
                let b = c as u8;
                if 65 <= b && b <= 90 {
                    Some(DoomKey::Ascii(b + 32))
                } else {
                    Some(DoomKey::Ascii(b))
                }
            } else {
                None
            }
        },
    }
}

/// Maps a key directly to the engine key it is delivered as, if any: the
/// key's action, put through the action table.
pub fn map_key(key: Key) -> (r: Option<DoomKey>)
    ensures
        r == spec_action_key(spec_key_to_action(key)),
{
    let action = crate::mapper::key_to_action(key);
    action_to_doom_key(action)
}

/// One non-blocking poll step of the engine bridge: at most one pending
/// mapper message becomes at most one engine key event. An action outside
/// the engine's vocabulary is dropped.
pub fn poll_step(msg: Option<MapperMessage>) -> (r: Option<(DoomKey, bool)>)
    ensures
        r == (match msg {
            None => None::<(DoomKey, bool)>,
            Some(MapperMessage::Action { action, down }) => match spec_action_key(action) {
                Some(k) => Some((k, down)),
                None => None,
            },
        }),
{
    match msg {
        None => None,
        Some(MapperMessage::Action { action, down }) => match action_to_doom_key(action) {
            Some(k) => Some((k, down)),
            None => None,
        },
    }
}

/// Relies on doomgeneric's `keys::KEY_RIGHT`: the engine's configured
/// turn-right key code. Its value is the engine's runtime configuration, so
/// nothing is promised of it.
#[verifier::external_body]
fn engine_key_right() -> u8 {
    *doomgeneric::input::keys::KEY_RIGHT
}

/// Relies on doomgeneric's `keys::KEY_LEFT`: the engine's configured
/// turn-left key code.
#[verifier::external_body]
fn engine_key_left() -> u8 {
    *doomgeneric::input::keys::KEY_LEFT
}

/// Relies on doomgeneric's `keys::KEY_UP`: the engine's configured
/// move-forward key code.
#[verifier::external_body]
fn engine_key_up() -> u8 {
    *doomgeneric::input::keys::KEY_UP
}

/// Relies on doomgeneric's `keys::KEY_DOWN`: the engine's configured
/// move-back key code.
#[verifier::external_body]
fn engine_key_down() -> u8 {
    *doomgeneric::input::keys::KEY_DOWN
}

/// Relies on doomgeneric's `keys::KEY_STRAFELEFT`: the engine's configured
/// strafe-left key code.
#[verifier::external_body]
fn engine_key_strafeleft() -> u8 {
    *doomgeneric::input::keys::KEY_STRAFELEFT
}

/// Relies on doomgeneric's `keys::KEY_STRAFERIGHT`: the engine's configured
/// strafe-right key code.
#[verifier::external_body]
fn engine_key_straferight() -> u8 {
    *doomgeneric::input::keys::KEY_STRAFERIGHT
}

/// Relies on doomgeneric's `keys::KEY_FIRE`: the engine's configured fire
/// key code.
#[verifier::external_body]
fn engine_key_fire() -> u8 {
    *doomgeneric::input::keys::KEY_FIRE
}

/// Relies on doomgeneric's `keys::KEY_USE`: the engine's configured use key
/// code.
#[verifier::external_body]
fn engine_key_use() -> u8 {
    *doomgeneric::input::keys::KEY_USE
}

/// Relies on doomgeneric's `keys::KEY_SPEED`: the engine's configured speed
/// key code.
#[verifier::external_body]
fn engine_key_speed() -> u8 {
    *doomgeneric::input::keys::KEY_SPEED
}

/// Relies on doomgeneric's `keys::KEY_ESCAPE`: the static value 27.
#[verifier::external_body]
fn engine_key_escape() -> (code: u8)
    ensures
        code == 27,
{
    doomgeneric::input::keys::KEY_ESCAPE
}

/// Relies on doomgeneric's `keys::KEY_ENTER`: the static value 13, the
/// carriage-return character.
#[verifier::external_body]
fn engine_key_enter() -> (code: u8)
    ensures
        code == 13,
{
    doomgeneric::input::keys::KEY_ENTER
}

/// The raw engine code of an engine key. The configured keys take whatever
/// value the engine's configuration gives them; escape, enter and ASCII
/// characters have fixed codes.
pub fn doom_key_code(key: DoomKey) -> (code: u8)
    ensures
        key == DoomKey::Escape ==> code == 27,
        key == DoomKey::Enter ==> code == 13,
        forall|b: u8| key == DoomKey::Ascii(b) ==> code == b,
{
    match key {
        DoomKey::Right => engine_key_right(),
        DoomKey::Left => engine_key_left(),
        DoomKey::Up => engine_key_up(),
        DoomKey::Down => engine_key_down(),
        DoomKey::StrafeLeft => engine_key_strafeleft(),
        DoomKey::StrafeRight => engine_key_straferight(),
        DoomKey::Fire => engine_key_fire(),
        DoomKey::Use => engine_key_use(),
        DoomKey::Speed => engine_key_speed(),
        DoomKey::Escape => engine_key_escape(),
        DoomKey::Enter => engine_key_enter(),
        DoomKey::Ascii(b) => b,
    }
}

} // verus!
