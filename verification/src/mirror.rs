//! Translation of local window events into canonical controller events, and
//! the pointer-lock state machine.
//!
//! The mirror window owns the thread that pumps window events. Each event is
//! translated here into zero or more canonical controller messages; pointer
//! lock is engaged on a left click while unlocked and released on an escape
//! key press while locked. Both lock transitions are forwarded downstream as
//! ordinary input events — a zero-motion mouse move tagged with the new lock
//! state — so the mapper can release a held look action the moment the
//! pointer unlocks.

use vstd::prelude::*;

use crate::message::{ControllerMessage, Key, MilliVec, MouseButton};

verus! {

/// A local window event, already normalized to the canonical key and button
/// vocabulary.
#[derive(Debug, Clone, Copy, PartialEq, Eq, Structural)]
pub enum WindowEvent {
    /// The window was asked to close.
    Quit,
    /// A keyboard key transition.
    KeyInput { key: Key, down: bool },
    /// A mouse button transition.
    MouseButtonInput { button: MouseButton, down: bool },
    /// A relative mouse motion.
    MouseMotion { delta: MilliVec },
}

/// Everything one window event asks the surrounding loop to do: initiate
/// shutdown, change the window's pointer grab, and forward messages to the
/// mapper, in order.
#[derive(Debug, Clone, PartialEq, Eq)]
pub struct MirrorEffect {
    /// Whether the loop should shut down.
    pub quit: bool,
    /// The pointer grab to apply to the window, if it changes.
    pub set_pointer_lock: Option<bool>,
    /// The controller messages to forward, in order.
    pub messages: Vec<ControllerMessage>,
}

/// The zero vector, for the forwarded lock-transition events.
pub open spec fn zero_vec() -> MilliVec {
    MilliVec { x: 0, y: 0 }
}

/// Whether a window event releases the pointer lock: an escape key press
/// while locked.
pub open spec fn releases_lock(locked: bool, e: WindowEvent) -> bool {
    locked && e == (WindowEvent::KeyInput { key: Key::Escape, down: true })
}

/// Whether a window event engages the pointer lock: a left click while
/// unlocked.
pub open spec fn engages_lock(locked: bool, e: WindowEvent) -> bool {
    !locked && e == (WindowEvent::MouseButtonInput { button: MouseButton::Left, down: true })
}

/// The pointer-lock state after a window event.
pub open spec fn locked_after(locked: bool, e: WindowEvent) -> bool {
    if releases_lock(locked, e) {
        false
    } else if engages_lock(locked, e) {
        true
    } else {
        locked
    }
}

/// The pointer-grab change a window event asks for, if any.
pub open spec fn lock_change(locked: bool, e: WindowEvent) -> Option<bool> {
    if releases_lock(locked, e) {
        Some(false)
    } else if engages_lock(locked, e) {
        Some(true)
    } else {
        None
    }
}

/// The controller messages a window event forwards, in order. Key and
/// button transitions pass through 1:1; motion is tagged with the current
/// lock state; a lock transition additionally forwards a zero-motion event
/// tagged with the new state.
pub open spec fn mirror_emits(locked: bool, e: WindowEvent) -> Seq<ControllerMessage> {
    match e {
        WindowEvent::Quit => seq![],
        WindowEvent::KeyInput { key, down } => {
            let base = seq![ControllerMessage::Key { key, down }];
            if releases_lock(locked, e) {
                base + seq![
                    ControllerMessage::MouseMove { delta: zero_vec(), pointer_locked: false },
                ]
            } else {
                base
            }
        },
        WindowEvent::MouseButtonInput { button, down } => {
            let base = seq![ControllerMessage::MouseButton { button, down }];
            if engages_lock(locked, e) {
                base + seq![
                    ControllerMessage::MouseMove { delta: zero_vec(), pointer_locked: true },
                ]
            } else {
                base
            }
        },
        WindowEvent::MouseMotion { delta } => seq![
            ControllerMessage::MouseMove { delta, pointer_locked: locked },
        ],
    }
}

/// The mirror window's input-side state: whether the pointer is locked.
#[derive(Debug, Clone, Copy, PartialEq, Eq, Structural)]
pub struct MirrorInput {
    /// Whether the pointer is currently locked to the window.
    pub pointer_locked: bool,
}

impl MirrorInput {
    /// A fresh mirror input state: pointer unlocked.
    pub fn new() -> (m: MirrorInput)
        ensures
            !m.pointer_locked,
    {
        MirrorInput { pointer_locked: false }
    }

    /// Decides what one window event does: the forwarded messages, the
    /// pointer-grab change, and whether to shut down; and advances the lock
    /// state.
    pub fn on_event(&mut self, e: WindowEvent) -> (eff: MirrorEffect)
        ensures
            final(self).pointer_locked == locked_after(old(self).pointer_locked, e),
            eff.quit == (e == WindowEvent::Quit),
            eff.set_pointer_lock == lock_change(old(self).pointer_locked, e),
            eff.messages@ == mirror_emits(old(self).pointer_locked, e),
    {
        let locked = self.pointer_locked;
        let mut messages: Vec<ControllerMessage> = Vec::new();
        let mut quit = false;
        let mut set_pointer_lock: Option<bool> = None;
        match e {
            WindowEvent::Quit => {
                quit = true;
            },
            WindowEvent::KeyInput { key, down } => {
                messages.push(ControllerMessage::Key { key, down });
                if locked && key == Key::Escape && down {
                    set_pointer_lock = Some(false);
                    self.pointer_locked = false;
                    messages.push(
                        ControllerMessage::MouseMove {
                            delta: MilliVec { x: 0, y: 0 },
                            pointer_locked: false,
                        },
                    );
                }
            },
            WindowEvent::MouseButtonInput { button, down } => {
                messages.push(ControllerMessage::MouseButton { button, down });
                if !locked && button == MouseButton::Left && down {
                    set_pointer_lock = Some(true);
                    self.pointer_locked = true;
                    messages.push(
                        ControllerMessage::MouseMove {
                            delta: MilliVec { x: 0, y: 0 },
                            pointer_locked: true,
                        },
                    );
                }
            },
            WindowEvent::MouseMotion { delta } => {
                messages.push(ControllerMessage::MouseMove { delta, pointer_locked: locked });
            },
        }
        proof {
            assert(messages@ =~= mirror_emits(old(self).pointer_locked, e));
        }
        MirrorEffect { quit, set_pointer_lock, messages }
    }
}

} // verus!
