//! Normalization of raw remote input events into the canonical vocabulary.
//!
//! The remote event stream delivers JavaScript-style key codes as strings and
//! gamepad controls as indices of the standard-gamepad layout. Each lookup
//! here is a static table; codes outside the supported control set map to
//! `None` and are silently dropped by the caller.

use vstd::prelude::*;
use vstd::string::StringSliceAdditionalSpecFns;

use crate::message::{Direction, GamepadButton, GamepadStick, GamepadTrigger, Key};

verus! {

/// Whether `p` is a prefix of `s`.
pub open spec fn is_prefix(p: Seq<u8>, s: Seq<u8>) -> bool {
    p.len() <= s.len() && s.subrange(0, p.len() as int) == p
}

/// The key, if any, that a JavaScript-style key code names.
///
/// Codes of the form `Digit<c>...` and `Key<c>...` name the letter `<c>`;
/// every other code outside the table names no key at all.
pub open spec fn key_of_code(s: Seq<u8>) -> Option<Key> {
    if s == "ArrowLeft".spec_bytes() {
        Some(Key::ArrowLeft)
    } else if s == "ArrowRight".spec_bytes() {
        Some(Key::ArrowRight)
    } else if s == "ArrowUp".spec_bytes() {
        Some(Key::ArrowUp)
    } else if s == "ArrowDown".spec_bytes() {
        Some(Key::ArrowDown)
    } else if s == "Enter".spec_bytes() {
        Some(Key::Enter)
    } else if s == "Escape".spec_bytes() {
        Some(Key::Escape)
    } else if s == "ShiftLeft".spec_bytes() || s == "ShiftRight".spec_bytes() {
        Some(Key::Shift)
    } else if s == "Space".spec_bytes() {
        Some(Key::Space)
    } else if s == "CtrlLeft".spec_bytes() || s == "CtrlRight".spec_bytes() {
        Some(Key::Ctrl)
    } else if is_prefix("Digit".spec_bytes(), s) && s.len() > 5 {
        Some(Key::Letter(s[5] as char))
    } else if is_prefix("Key".spec_bytes(), s) && s.len() > 3 {
        Some(Key::Letter(s[3] as char))
    } else {
        None
    }
}

/// Whether two byte slices hold the same bytes.
fn bytes_eq(a: &[u8], b: &[u8]) -> (r: bool)
    ensures
        r == (a@ == b@),
{
    if a.len() != b.len() {
        return false;
    }
    let mut i: usize = 0;
    while i < a.len()
        invariant
            i <= a@.len(),
            a@.len() == b@.len(),
            forall|j: int| 0 <= j < i ==> a@[j] == b@[j],
        decreases a@.len() - i,
    {
        if a[i] != b[i] {
            return false;
        }
        i += 1;
    }
    proof {
        assert(a@ =~= b@);
    }
    true
}

/// Whether `p` holds a prefix of `s`.
fn bytes_starts_with(s: &[u8], p: &[u8]) -> (r: bool)
    ensures
        r == is_prefix(p@, s@),
{
    if p.len() > s.len() {
        return false;
    }
    let mut i: usize = 0;
    while i < p.len()
        invariant
            i <= p@.len(),
            p@.len() <= s@.len(),
            forall|j: int| 0 <= j < i ==> s@[j] == p@[j],
        decreases p@.len() - i,
    {
        if s[i] != p[i] {
            proof {
                assert(s@.subrange(0, p@.len() as int)[i as int] == s@[i as int]);
            }
            return false;
        }
        i += 1;
    }
    proof {
        assert(s@.subrange(0, p@.len() as int) =~= p@);
    }
    true
}

/// Converts a JavaScript-style key code from the remote event stream into a
/// canonical key. Unsupported codes yield `None`.
pub fn convert_key(js_key: &str) -> (r: Option<Key>)
    ensures
        r == key_of_code(js_key.spec_bytes()),
{
    let b = js_key.as_bytes();
    if bytes_eq(b, "ArrowLeft".as_bytes()) {
        Some(Key::ArrowLeft)
    } else if bytes_eq(b, "ArrowRight".as_bytes()) {
        Some(Key::ArrowRight)
    } else if bytes_eq(b, "ArrowUp".as_bytes()) {
        Some(Key::ArrowUp)
    } else if bytes_eq(b, "ArrowDown".as_bytes()) {
        Some(Key::ArrowDown)
    } else if bytes_eq(b, "Enter".as_bytes()) {
        Some(Key::Enter)
    } else if bytes_eq(b, "Escape".as_bytes()) {
        Some(Key::Escape)
    } else if bytes_eq(b, "ShiftLeft".as_bytes()) || bytes_eq(b, "ShiftRight".as_bytes()) {
        Some(Key::Shift)
    } else if bytes_eq(b, "Space".as_bytes()) {
        Some(Key::Space)
    } else if bytes_eq(b, "CtrlLeft".as_bytes()) || bytes_eq(b, "CtrlRight".as_bytes()) {
        Some(Key::Ctrl)
    } else if bytes_starts_with(b, "Digit".as_bytes()) && b.len() > 5 {
        Some(Key::Letter(b[5] as char))
    } else if bytes_starts_with(b, "Key".as_bytes()) && b.len() > 3 {
        Some(Key::Letter(b[3] as char))
    } else {
        None
    }
}

/// The gamepad button, if any, behind a button index of the standard-gamepad
/// layout.
pub open spec fn gamepad_button_of_index(idx: usize) -> Option<GamepadButton> {
    if idx == 0 {
        Some(GamepadButton::Cluster(Direction::Down))
    } else if idx == 1 {
        Some(GamepadButton::Cluster(Direction::Right))
    } else if idx == 2 {
        Some(GamepadButton::Cluster(Direction::Left))
    } else if idx == 3 {
        Some(GamepadButton::Cluster(Direction::Up))
    } else if idx == 6 {
        Some(GamepadButton::Trigger(GamepadTrigger::Left))
    } else if idx == 7 {
        Some(GamepadButton::Trigger(GamepadTrigger::Right))
    } else if idx == 12 {
        Some(GamepadButton::DPad(Direction::Up))
    } else if idx == 13 {
        Some(GamepadButton::DPad(Direction::Down))
    } else if idx == 14 {
        Some(GamepadButton::DPad(Direction::Left))
    } else if idx == 15 {
        Some(GamepadButton::DPad(Direction::Right))
    } else {
        None
    }
}

/// Converts a button index of the standard-gamepad layout into a canonical
/// gamepad button. Unsupported indices yield `None`.
pub fn convert_gamepad_button(button_idx: usize) -> (r: Option<GamepadButton>)
    ensures
        r == gamepad_button_of_index(button_idx),
{
    match button_idx {
        0 => Some(GamepadButton::Cluster(Direction::Down)),
        1 => Some(GamepadButton::Cluster(Direction::Right)),
        2 => Some(GamepadButton::Cluster(Direction::Left)),
        3 => Some(GamepadButton::Cluster(Direction::Up)),
        6 => Some(GamepadButton::Trigger(GamepadTrigger::Left)),
        7 => Some(GamepadButton::Trigger(GamepadTrigger::Right)),
        12 => Some(GamepadButton::DPad(Direction::Up)),
        13 => Some(GamepadButton::DPad(Direction::Down)),
        14 => Some(GamepadButton::DPad(Direction::Left)),
        15 => Some(GamepadButton::DPad(Direction::Right)),
        _ => None,
    }
}

/// The stick, if any, behind a 2D-axis index: axis 0 is the left stick and
/// axis 1 the right stick.
pub open spec fn stick_of_index(idx: usize) -> Option<GamepadStick> {
    if idx == 0 {
        Some(GamepadStick::Left)
    } else if idx == 1 {
        Some(GamepadStick::Right)
    } else {
        None
    }
}

/// Converts a 2D-axis index into a canonical stick. Unsupported indices
/// yield `None`.
pub fn convert_gamepad_axis2d(axis2d_idx: usize) -> (r: Option<GamepadStick>)
    ensures
        r == stick_of_index(axis2d_idx),
{
    match axis2d_idx {
        0 => Some(GamepadStick::Left),
        1 => Some(GamepadStick::Right),
        _ => None,
    }
}

} // verus!
