//! The logical-to-physical mapping layer. A [`KeyMapper`] resolves a
//! platform-independent [`Key`] (with an optional [`KeyLocation`]) to the
//! physical code the injection primitive expects, and a [`MouseButton`] to a
//! physical button. Mapping is a pure total function: unsupported keys map to
//! `None` (callers treat that as a no-op, not an error) and unrecognized
//! buttons fall back to the primary button.

use vstd::prelude::*;
use crate::enums::{Key, KeyLocation, MouseButton};
use crate::events::{PhysicalButton, PhysicalKey};

verus! {

/// What [`KeyMapper::map_key`] returns: the physical code for a logical key,
/// or `None` when the key is unknown or unsupported on this platform.
///
/// Only Shift and Ctrl have documented side-specific codes: with
/// `location = Left` or `Right` they resolve to the side-specific code, and
/// to the generic code otherwise. Every other key maps the same way
/// regardless of location. The numpad, media and context-menu keys have no
/// physical code on this platform, and opaque `Other` codes are unknown by
/// definition; all of them map to `None`.
pub open spec fn spec_map_key(key: Key, location: Option<KeyLocation>) -> Option<PhysicalKey> {
    match key {
        Key::Backspace => Some(PhysicalKey::Backspace),
        Key::Tab => Some(PhysicalKey::Tab),
        Key::Enter => Some(PhysicalKey::Return),
        Key::Shift => match location {
            Some(KeyLocation::Left) => Some(PhysicalKey::LShift),
            Some(KeyLocation::Right) => Some(PhysicalKey::RShift),
            _ => Some(PhysicalKey::Shift),
        },
        Key::Ctrl => match location {
            Some(KeyLocation::Left) => Some(PhysicalKey::LControl),
            Some(KeyLocation::Right) => Some(PhysicalKey::RControl),
            _ => Some(PhysicalKey::Control),
        },
        Key::Alt => Some(PhysicalKey::Alt),
        Key::CapsLock => Some(PhysicalKey::CapsLock),
        Key::Escape => Some(PhysicalKey::Escape),
        Key::Space => Some(PhysicalKey::Space),
        Key::PageUp => Some(PhysicalKey::PageUp),
        Key::PageDown => Some(PhysicalKey::PageDown),
        Key::End => Some(PhysicalKey::End),
        Key::Home => Some(PhysicalKey::Home),
        Key::ArrowLeft => Some(PhysicalKey::LeftArrow),
        Key::ArrowUp => Some(PhysicalKey::UpArrow),
        Key::ArrowRight => Some(PhysicalKey::RightArrow),
        Key::ArrowDown => Some(PhysicalKey::DownArrow),
        Key::PrintScreen => Some(PhysicalKey::Print),
        Key::Insert => Some(PhysicalKey::Insert),
        Key::Delete => Some(PhysicalKey::Delete),
        Key::Num0 => Some(PhysicalKey::Unicode('0')),
        Key::Num1 => Some(PhysicalKey::Unicode('1')),
        Key::Num2 => Some(PhysicalKey::Unicode('2')),
        Key::Num3 => Some(PhysicalKey::Unicode('3')),
        Key::Num4 => Some(PhysicalKey::Unicode('4')),
        Key::Num5 => Some(PhysicalKey::Unicode('5')),
        Key::Num6 => Some(PhysicalKey::Unicode('6')),
        Key::Num7 => Some(PhysicalKey::Unicode('7')),
        Key::Num8 => Some(PhysicalKey::Unicode('8')),
        Key::Num9 => Some(PhysicalKey::Unicode('9')),
        Key::A => Some(PhysicalKey::Unicode('a')),
        Key::B => Some(PhysicalKey::Unicode('b')),
        Key::C => Some(PhysicalKey::Unicode('c')),
        Key::D => Some(PhysicalKey::Unicode('d')),
        Key::E => Some(PhysicalKey::Unicode('e')),
        Key::F => Some(PhysicalKey::Unicode('f')),
        Key::G => Some(PhysicalKey::Unicode('g')),
        Key::H => Some(PhysicalKey::Unicode('h')),
        Key::I => Some(PhysicalKey::Unicode('i')),
        Key::J => Some(PhysicalKey::Unicode('j')),
        Key::K => Some(PhysicalKey::Unicode('k')),
        Key::L => Some(PhysicalKey::Unicode('l')),
        Key::M => Some(PhysicalKey::Unicode('m')),
        Key::N => Some(PhysicalKey::Unicode('n')),
        Key::O => Some(PhysicalKey::Unicode('o')),
        Key::P => Some(PhysicalKey::Unicode('p')),
        Key::Q => Some(PhysicalKey::Unicode('q')),
        Key::R => Some(PhysicalKey::Unicode('r')),
        Key::S => Some(PhysicalKey::Unicode('s')),
        Key::T => Some(PhysicalKey::Unicode('t')),
        Key::U => Some(PhysicalKey::Unicode('u')),
        Key::V => Some(PhysicalKey::Unicode('v')),
        Key::W => Some(PhysicalKey::Unicode('w')),
        Key::X => Some(PhysicalKey::Unicode('x')),
        Key::Y => Some(PhysicalKey::Unicode('y')),
        Key::Z => Some(PhysicalKey::Unicode('z')),
        Key::F1 => Some(PhysicalKey::F1),
        Key::F2 => Some(PhysicalKey::F2),
        Key::F3 => Some(PhysicalKey::F3),
        Key::F4 => Some(PhysicalKey::F4),
        Key::F5 => Some(PhysicalKey::F5),
        Key::F6 => Some(PhysicalKey::F6),
        Key::F7 => Some(PhysicalKey::F7),
        Key::F8 => Some(PhysicalKey::F8),
        Key::F9 => Some(PhysicalKey::F9),
        Key::F10 => Some(PhysicalKey::F10),
        Key::F11 => Some(PhysicalKey::F11),
        Key::F12 => Some(PhysicalKey::F12),
        Key::Semicolon => Some(PhysicalKey::Unicode(';')),
        Key::Equal => Some(PhysicalKey::Unicode('=')),
        Key::Comma => Some(PhysicalKey::Unicode(',')),
        Key::Minus => Some(PhysicalKey::Unicode('-')),
        Key::Period => Some(PhysicalKey::Unicode('.')),
        Key::Slash => Some(PhysicalKey::Unicode('/')),
        Key::Backquote => Some(PhysicalKey::Unicode('`')),
        Key::LeftBracket => Some(PhysicalKey::Unicode('[')),
        Key::Backslash => Some(PhysicalKey::Unicode('\\')),
        Key::RightBracket => Some(PhysicalKey::Unicode(']')),
        Key::Quote => Some(PhysicalKey::Unicode('\'')),
        Key::Meta => Some(PhysicalKey::Meta),
        _ => None,
    }
}

/// What [`KeyMapper::map_button`] returns: the physical code for a logical
/// mouse button. Unrecognized buttons fall back to the primary (left)
/// button instead of failing, so a composite gesture never aborts on a
/// single malformed sub-action.
pub open spec fn spec_map_button(button: MouseButton) -> PhysicalButton {
    match button {
        MouseButton::Left => PhysicalButton::Left,
        MouseButton::Right => PhysicalButton::Right,
        MouseButton::Middle => PhysicalButton::Middle,
        MouseButton::Back => PhysicalButton::Back,
        MouseButton::Forward => PhysicalButton::Forward,
        MouseButton::Other(_) => PhysicalButton::Left,
    }
}

/// Maps logical, platform-independent keys and buttons to the physical codes
/// the injection primitive expects. Pure and deterministic: no state beyond
/// the static mapping itself.
#[derive(Clone)]
pub struct KeyMapper;

impl KeyMapper {
    pub fn new() -> (mapper: KeyMapper) {
        KeyMapper
    }

    /// Resolves a logical key, with its optional location, to a physical
    /// code; `None` means the key is unsupported on this platform and the
    /// caller must skip the injection for it (a no-op, not an error).
    pub fn map_key(&self, key: Key, location: Option<KeyLocation>) -> (code: Option<PhysicalKey>)
        ensures
            code == spec_map_key(key, location),
    {
        match key {
            Key::Backspace => Some(PhysicalKey::Backspace),
            Key::Tab => Some(PhysicalKey::Tab),
            Key::Enter => Some(PhysicalKey::Return),
            Key::Shift => match location {
                Some(KeyLocation::Left) => Some(PhysicalKey::LShift),
                Some(KeyLocation::Right) => Some(PhysicalKey::RShift),
                _ => Some(PhysicalKey::Shift),
            },
            Key::Ctrl => match location {
                Some(KeyLocation::Left) => Some(PhysicalKey::LControl),
                Some(KeyLocation::Right) => Some(PhysicalKey::RControl),
                _ => Some(PhysicalKey::Control),
            },
            Key::Alt => Some(PhysicalKey::Alt),
            Key::CapsLock => Some(PhysicalKey::CapsLock),
            Key::Escape => Some(PhysicalKey::Escape),
            Key::Space => Some(PhysicalKey::Space),
            Key::PageUp => Some(PhysicalKey::PageUp),
            Key::PageDown => Some(PhysicalKey::PageDown),
            Key::End => Some(PhysicalKey::End),
            Key::Home => Some(PhysicalKey::Home),
            Key::ArrowLeft => Some(PhysicalKey::LeftArrow),
            Key::ArrowUp => Some(PhysicalKey::UpArrow),
            Key::ArrowRight => Some(PhysicalKey::RightArrow),
            Key::ArrowDown => Some(PhysicalKey::DownArrow),
            Key::PrintScreen => Some(PhysicalKey::Print),
            Key::Insert => Some(PhysicalKey::Insert),
            Key::Delete => Some(PhysicalKey::Delete),
            Key::Num0 => Some(PhysicalKey::Unicode('0')),
            Key::Num1 => Some(PhysicalKey::Unicode('1')),
            Key::Num2 => Some(PhysicalKey::Unicode('2')),
            Key::Num3 => Some(PhysicalKey::Unicode('3')),
            Key::Num4 => Some(PhysicalKey::Unicode('4')),
            Key::Num5 => Some(PhysicalKey::Unicode('5')),
            Key::Num6 => Some(PhysicalKey::Unicode('6')),
            Key::Num7 => Some(PhysicalKey::Unicode('7')),
            Key::Num8 => Some(PhysicalKey::Unicode('8')),
            Key::Num9 => Some(PhysicalKey::Unicode('9')),
            Key::A => Some(PhysicalKey::Unicode('a')),
            Key::B => Some(PhysicalKey::Unicode('b')),
            Key::C => Some(PhysicalKey::Unicode('c')),
            Key::D => Some(PhysicalKey::Unicode('d')),
            Key::E => Some(PhysicalKey::Unicode('e')),
            Key::F => Some(PhysicalKey::Unicode('f')),
            Key::G => Some(PhysicalKey::Unicode('g')),
            Key::H => Some(PhysicalKey::Unicode('h')),
            Key::I => Some(PhysicalKey::Unicode('i')),
            Key::J => Some(PhysicalKey::Unicode('j')),
            Key::K => Some(PhysicalKey::Unicode('k')),
            Key::L => Some(PhysicalKey::Unicode('l')),
            Key::M => Some(PhysicalKey::Unicode('m')),
            Key::N => Some(PhysicalKey::Unicode('n')),
            Key::O => Some(PhysicalKey::Unicode('o')),
            Key::P => Some(PhysicalKey::Unicode('p')),
            Key::Q => Some(PhysicalKey::Unicode('q')),
            Key::R => Some(PhysicalKey::Unicode('r')),
            Key::S => Some(PhysicalKey::Unicode('s')),
            Key::T => Some(PhysicalKey::Unicode('t')),
            Key::U => Some(PhysicalKey::Unicode('u')),
            Key::V => Some(PhysicalKey::Unicode('v')),
            Key::W => Some(PhysicalKey::Unicode('w')),
            Key::X => Some(PhysicalKey::Unicode('x')),
            Key::Y => Some(PhysicalKey::Unicode('y')),
            Key::Z => Some(PhysicalKey::Unicode('z')),
            Key::F1 => Some(PhysicalKey::F1),
            Key::F2 => Some(PhysicalKey::F2),
            Key::F3 => Some(PhysicalKey::F3),
            Key::F4 => Some(PhysicalKey::F4),
            Key::F5 => Some(PhysicalKey::F5),
            Key::F6 => Some(PhysicalKey::F6),
            Key::F7 => Some(PhysicalKey::F7),
            Key::F8 => Some(PhysicalKey::F8),
            Key::F9 => Some(PhysicalKey::F9),
            Key::F10 => Some(PhysicalKey::F10),
            Key::F11 => Some(PhysicalKey::F11),
            Key::F12 => Some(PhysicalKey::F12),
            Key::Semicolon => Some(PhysicalKey::Unicode(';')),
            Key::Equal => Some(PhysicalKey::Unicode('=')),
            Key::Comma => Some(PhysicalKey::Unicode(',')),
            Key::Minus => Some(PhysicalKey::Unicode('-')),
            Key::Period => Some(PhysicalKey::Unicode('.')),
            Key::Slash => Some(PhysicalKey::Unicode('/')),
            Key::Backquote => Some(PhysicalKey::Unicode('`')),
            Key::LeftBracket => Some(PhysicalKey::Unicode('[')),
            Key::Backslash => Some(PhysicalKey::Unicode('\\')),
            Key::RightBracket => Some(PhysicalKey::Unicode(']')),
            Key::Quote => Some(PhysicalKey::Unicode('\'')),
            Key::Meta => Some(PhysicalKey::Meta),
            _ => None,
        }
    }

    /// Resolves a logical mouse button to its physical code; unrecognized
    /// buttons fall back to the primary (left) button.
    pub fn map_button(&self, button: MouseButton) -> (code: PhysicalButton)
        ensures
            code == spec_map_button(button),
    {
        match button {
            MouseButton::Left => PhysicalButton::Left,
            MouseButton::Right => PhysicalButton::Right,
            MouseButton::Middle => PhysicalButton::Middle,
            MouseButton::Back => PhysicalButton::Back,
            MouseButton::Forward => PhysicalButton::Forward,
            MouseButton::Other(_) => PhysicalButton::Left,
        }
    }
}

/// Location only ever disambiguates the keys with documented side-specific
/// physical codes. If mapping a key with any explicit location differs from
/// mapping it with no location at all, the key is Shift or Ctrl and the
/// location is `Left` or `Right`; every other key resolves to one physical
/// code regardless of location.
pub proof fn lemma_location_only_disambiguates_sided_keys(key: Key, location: KeyLocation)
    ensures
        spec_map_key(key, Some(location)) != spec_map_key(key, None) ==> (key == Key::Shift
            || key == Key::Ctrl) && (location == KeyLocation::Left || location
            == KeyLocation::Right),
{
}

/// Opaque escape-hatch codes never raise an error: an unknown key maps to
/// `None` whatever its location, and an unknown button falls back to the
/// primary button.
pub proof fn lemma_opaque_codes_degrade(key_code: u32, button_code: u8, location: Option<
    KeyLocation,
>)
    ensures
        spec_map_key(Key::Other(key_code), location) is None,
        spec_map_button(MouseButton::Other(button_code)) == PhysicalButton::Left,
{
}

} // verus!
