use lighthouse_doom::bridge::{action_to_doom_key, doom_key_code, map_key, poll_step, DoomKey};
use lighthouse_doom::message::{Action, Key, MapperMessage};

#[test]
fn action_table() {
    assert_eq!(action_to_doom_key(Action::Right), Some(DoomKey::Right));
    assert_eq!(action_to_doom_key(Action::Left), Some(DoomKey::Left));
    assert_eq!(action_to_doom_key(Action::Up), Some(DoomKey::Up));
    assert_eq!(action_to_doom_key(Action::Down), Some(DoomKey::Down));
    assert_eq!(action_to_doom_key(Action::StrafeLeft), Some(DoomKey::StrafeLeft));
    assert_eq!(action_to_doom_key(Action::StrafeRight), Some(DoomKey::StrafeRight));
    assert_eq!(action_to_doom_key(Action::Escape), Some(DoomKey::Escape));
    assert_eq!(action_to_doom_key(Action::Enter), Some(DoomKey::Enter));
    assert_eq!(action_to_doom_key(Action::Use), Some(DoomKey::Use));
    assert_eq!(action_to_doom_key(Action::Fire), Some(DoomKey::Fire));
    assert_eq!(action_to_doom_key(Action::Speed), Some(DoomKey::Speed));
}

#[test]
fn letters_lowercase_to_ascii() {
    assert_eq!(
        action_to_doom_key(Action::KeyLetter('G')),
        Some(DoomKey::Ascii(b'g'))
    );
    assert_eq!(
        action_to_doom_key(Action::KeyLetter('g')),
        Some(DoomKey::Ascii(b'g'))
    );
    assert_eq!(
        action_to_doom_key(Action::KeyLetter('7')),
        Some(DoomKey::Ascii(b'7'))
    );
    // A non-ASCII letter has no engine key.
    assert_eq!(action_to_doom_key(Action::KeyLetter('é')), None);
}

#[test]
fn map_key_composes_tables() {
    assert_eq!(map_key(Key::ArrowRight), Some(DoomKey::Right));
    assert_eq!(map_key(Key::Letter('W')), Some(DoomKey::Up));
    assert_eq!(map_key(Key::Letter('S')), Some(DoomKey::Down));
    assert_eq!(map_key(Key::Letter('A')), Some(DoomKey::StrafeLeft));
    assert_eq!(map_key(Key::Letter('D')), Some(DoomKey::StrafeRight));
    assert_eq!(map_key(Key::Ctrl), Some(DoomKey::Use));
    assert_eq!(map_key(Key::Space), Some(DoomKey::Fire));
    assert_eq!(map_key(Key::Shift), Some(DoomKey::Speed));
    assert_eq!(map_key(Key::Escape), Some(DoomKey::Escape));
    assert_eq!(map_key(Key::Enter), Some(DoomKey::Enter));
    assert_eq!(map_key(Key::Letter('X')), Some(DoomKey::Ascii(b'x')));
}

#[test]
fn poll_step_drains_one_action() {
    assert_eq!(poll_step(None), None);
    assert_eq!(
        poll_step(Some(MapperMessage::Action { action: Action::Fire, down: true })),
        Some((DoomKey::Fire, true))
    );
    assert_eq!(
        poll_step(Some(MapperMessage::Action { action: Action::Up, down: false })),
        Some((DoomKey::Up, false))
    );
}

#[test]
fn fixed_engine_codes() {
    assert_eq!(doom_key_code(DoomKey::Escape), 27);
    assert_eq!(doom_key_code(DoomKey::Enter), 13);
    assert_eq!(doom_key_code(DoomKey::Ascii(b'x')), b'x');
}
