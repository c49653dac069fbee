use lighthouse_doom::mapper::Mapper;
use lighthouse_doom::message::{Action, ControllerMessage, Key, MapperMessage, MilliVec, MouseButton};
use lighthouse_doom::mirror::{MirrorInput, WindowEvent};

fn action(a: Action, down: bool) -> MapperMessage {
    MapperMessage::Action { action: a, down }
}

#[test]
fn quit_event_initiates_shutdown() {
    let mut mi = MirrorInput::new();
    let eff = mi.on_event(WindowEvent::Quit);
    assert!(eff.quit);
    assert_eq!(eff.set_pointer_lock, None);
    assert_eq!(eff.messages, vec![]);
}

#[test]
fn keys_pass_through() {
    let mut mi = MirrorInput::new();
    let eff = mi.on_event(WindowEvent::KeyInput { key: Key::Space, down: true });
    assert!(!eff.quit);
    assert_eq!(eff.set_pointer_lock, None);
    assert_eq!(
        eff.messages,
        vec![ControllerMessage::Key { key: Key::Space, down: true }]
    );
    assert!(!mi.pointer_locked);
}

#[test]
fn left_click_engages_lock_once() {
    let mut mi = MirrorInput::new();
    let eff = mi.on_event(WindowEvent::MouseButtonInput { button: MouseButton::Left, down: true });
    assert_eq!(eff.set_pointer_lock, Some(true));
    assert!(mi.pointer_locked);
    assert_eq!(
        eff.messages,
        vec![
            ControllerMessage::MouseButton { button: MouseButton::Left, down: true },
            ControllerMessage::MouseMove {
                delta: MilliVec { x: 0, y: 0 },
                pointer_locked: true
            },
        ]
    );
    // A second click while locked changes nothing about the lock.
    let eff = mi.on_event(WindowEvent::MouseButtonInput { button: MouseButton::Left, down: true });
    assert_eq!(eff.set_pointer_lock, None);
    assert_eq!(
        eff.messages,
        vec![ControllerMessage::MouseButton { button: MouseButton::Left, down: true }]
    );
}

#[test]
fn escape_releases_lock_only_while_locked() {
    let mut mi = MirrorInput::new();
    // Escape while unlocked is an ordinary key event.
    let eff = mi.on_event(WindowEvent::KeyInput { key: Key::Escape, down: true });
    assert_eq!(eff.set_pointer_lock, None);
    assert_eq!(
        eff.messages,
        vec![ControllerMessage::Key { key: Key::Escape, down: true }]
    );
    // Lock, then escape releases and forwards the transition.
    mi.on_event(WindowEvent::MouseButtonInput { button: MouseButton::Left, down: true });
    let eff = mi.on_event(WindowEvent::KeyInput { key: Key::Escape, down: true });
    assert_eq!(eff.set_pointer_lock, Some(false));
    assert!(!mi.pointer_locked);
    assert_eq!(
        eff.messages,
        vec![
            ControllerMessage::Key { key: Key::Escape, down: true },
            ControllerMessage::MouseMove {
                delta: MilliVec { x: 0, y: 0 },
                pointer_locked: false
            },
        ]
    );
}

#[test]
fn motion_is_tagged_with_lock_state() {
    let mut mi = MirrorInput::new();
    let eff = mi.on_event(WindowEvent::MouseMotion { delta: MilliVec { x: 120, y: -5 } });
    assert_eq!(
        eff.messages,
        vec![ControllerMessage::MouseMove {
            delta: MilliVec { x: 120, y: -5 },
            pointer_locked: false
        }]
    );
    mi.on_event(WindowEvent::MouseButtonInput { button: MouseButton::Left, down: true });
    let eff = mi.on_event(WindowEvent::MouseMotion { delta: MilliVec { x: 120, y: -5 } });
    assert_eq!(
        eff.messages,
        vec![ControllerMessage::MouseMove {
            delta: MilliVec { x: 120, y: -5 },
            pointer_locked: true
        }]
    );
}

#[test]
fn pointer_lock_gates_look_actions() {
    // Unlocked motion produces no look action; locked motion turns; escape
    // while locked releases both the lock and the held look action.
    let mut mi = MirrorInput::new();
    let mut m = Mapper::new(false);
    let eff = mi.on_event(WindowEvent::MouseMotion { delta: MilliVec { x: 300, y: 0 } });
    let mut emitted = Vec::new();
    for msg in eff.messages {
        emitted.extend(m.handle(msg));
    }
    assert_eq!(emitted, vec![]);

    // Engage the lock with a left click; the click itself fires.
    let eff = mi.on_event(WindowEvent::MouseButtonInput { button: MouseButton::Left, down: true });
    let mut emitted = Vec::new();
    for msg in eff.messages {
        emitted.extend(m.handle(msg));
    }
    assert_eq!(emitted, vec![action(Action::Fire, true)]);
    let eff = mi.on_event(WindowEvent::MouseButtonInput { button: MouseButton::Left, down: false });
    for msg in eff.messages {
        m.handle(msg);
    }

    // The same motion now turns.
    let eff = mi.on_event(WindowEvent::MouseMotion { delta: MilliVec { x: 300, y: 0 } });
    let mut emitted = Vec::new();
    for msg in eff.messages {
        emitted.extend(m.handle(msg));
    }
    assert_eq!(emitted, vec![action(Action::Right, true)]);

    // Escape releases the lock and the held look action.
    let eff = mi.on_event(WindowEvent::KeyInput { key: Key::Escape, down: true });
    assert_eq!(eff.set_pointer_lock, Some(false));
    let mut emitted = Vec::new();
    for msg in eff.messages {
        emitted.extend(m.handle(msg));
    }
    assert_eq!(
        emitted,
        vec![action(Action::Escape, true), action(Action::Right, false)]
    );
}
