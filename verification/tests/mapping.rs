use input_sim::enums::{Key, KeyLocation, MouseButton};
use input_sim::events::{PhysicalButton, PhysicalKey};
use input_sim::keymap::KeyMapper;

#[test]
fn sided_keys_resolve_by_location() {
    let mapper = KeyMapper::new();
    assert_eq!(mapper.map_key(Key::Shift, Some(KeyLocation::Left)), Some(PhysicalKey::LShift));
    assert_eq!(mapper.map_key(Key::Shift, Some(KeyLocation::Right)), Some(PhysicalKey::RShift));
    assert_eq!(mapper.map_key(Key::Shift, Some(KeyLocation::Standard)), Some(PhysicalKey::Shift));
    assert_eq!(mapper.map_key(Key::Shift, None), Some(PhysicalKey::Shift));
    assert_eq!(mapper.map_key(Key::Ctrl, Some(KeyLocation::Left)), Some(PhysicalKey::LControl));
    assert_eq!(mapper.map_key(Key::Ctrl, Some(KeyLocation::Right)), Some(PhysicalKey::RControl));
    assert_eq!(mapper.map_key(Key::Ctrl, None), Some(PhysicalKey::Control));
}

#[test]
fn location_is_ignored_for_unsided_keys() {
    let mapper = KeyMapper::new();
    for location in [
        None,
        Some(KeyLocation::Standard),
        Some(KeyLocation::Left),
        Some(KeyLocation::Right),
        Some(KeyLocation::Numpad),
    ] {
        assert_eq!(mapper.map_key(Key::A, location), Some(PhysicalKey::Unicode('a')));
        assert_eq!(mapper.map_key(Key::Enter, location), Some(PhysicalKey::Return));
        assert_eq!(mapper.map_key(Key::Alt, location), Some(PhysicalKey::Alt));
        assert_eq!(mapper.map_key(Key::F11, location), Some(PhysicalKey::F11));
    }
}

#[test]
fn letters_digits_and_punctuation_map_to_unicode() {
    let mapper = KeyMapper::new();
    assert_eq!(mapper.map_key(Key::Num0, None), Some(PhysicalKey::Unicode('0')));
    assert_eq!(mapper.map_key(Key::Z, None), Some(PhysicalKey::Unicode('z')));
    assert_eq!(mapper.map_key(Key::Semicolon, None), Some(PhysicalKey::Unicode(';')));
    assert_eq!(mapper.map_key(Key::Backslash, None), Some(PhysicalKey::Unicode('\\')));
    assert_eq!(mapper.map_key(Key::Quote, None), Some(PhysicalKey::Unicode('\'')));
}

#[test]
fn unsupported_keys_map_to_none() {
    let mapper = KeyMapper::new();
    assert_eq!(mapper.map_key(Key::Other(12345), None), None);
    assert_eq!(mapper.map_key(Key::Other(0), Some(KeyLocation::Left)), None);
    assert_eq!(mapper.map_key(Key::Numpad7, None), None);
    assert_eq!(mapper.map_key(Key::NumpadEnter, None), None);
    assert_eq!(mapper.map_key(Key::ContextMenu, None), None);
    assert_eq!(mapper.map_key(Key::VolumeUp, None), None);
    assert_eq!(mapper.map_key(Key::MediaPlayPause, None), None);
}

#[test]
fn buttons_map_one_to_one_with_left_fallback() {
    let mapper = KeyMapper::new();
    assert_eq!(mapper.map_button(MouseButton::Left), PhysicalButton::Left);
    assert_eq!(mapper.map_button(MouseButton::Right), PhysicalButton::Right);
    assert_eq!(mapper.map_button(MouseButton::Middle), PhysicalButton::Middle);
    assert_eq!(mapper.map_button(MouseButton::Back), PhysicalButton::Back);
    assert_eq!(mapper.map_button(MouseButton::Forward), PhysicalButton::Forward);
    assert_eq!(mapper.map_button(MouseButton::Other(0)), PhysicalButton::Left);
    assert_eq!(mapper.map_button(MouseButton::Other(255)), PhysicalButton::Left);
}
