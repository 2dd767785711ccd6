//! The transport codec: a self-describing, tagged binary form of the action
//! model. `encode_action` writes an action tree as bytes; `decode_action`
//! reads it back; the round-trip law proves that every action survives the
//! boundary unchanged. Numbers travel in little-endian fixed widths, text as
//! one word per character, lists with a leading count, and every variant
//! under a leading tag byte.

use vstd::prelude::*;
use vstd::bytes::{
    lemma_auto_spec_u32_to_from_le_bytes, lemma_auto_spec_u64_to_from_le_bytes,
    spec_u32_from_le_bytes, spec_u32_to_le_bytes, spec_u64_from_le_bytes, spec_u64_to_le_bytes,
    u32_from_le_bytes, u32_to_le_bytes, u64_from_le_bytes, u64_to_le_bytes,
};
use vstd::slice::slice_subrange;
use vstd::string::StrSliceExecFns;
use vstd::utf8::{char_is_scalar, char_u32_cast, is_scalar};
use crate::enums::{ActionV, InputAction, Key, KeyLocation, MouseButton};

verus! {

/// One more than the largest count or text length the wire form can carry.
pub open spec fn count_limit() -> int {
    0x1_0000_0000_0000_0000
}

/// Whether every list and text in the tree is short enough for its count to
/// travel in one word. Every action built from executable values is bounded.
pub open spec fn bounded(action: ActionV) -> bool
    decreases action,
{
    match action {
        ActionV::KeySequence { keys, key_delay_ms } => keys.len() < count_limit(),
        ActionV::TypeText { text, char_delay_ms } => text.len() < count_limit(),
        ActionV::Hotkey { modifiers, key, location } => modifiers.len() < count_limit(),
        ActionV::Sequence { actions } => actions.len() < count_limit() && bounded_all(actions),
        ActionV::Parallel { actions } => actions.len() < count_limit() && bounded_all(actions),
        _ => true,
    }
}

/// Whether every action of a list is bounded.
pub open spec fn bounded_all(actions: Seq<ActionV>) -> bool
    decreases actions,
{
    if actions.len() == 0 {
        true
    } else {
        bounded(actions[0]) && bounded_all(actions.drop_first())
    }
}

// --- the wire form of the primitive values -------------------------------

pub open spec fn enc_u32(v: u32) -> Seq<u8> {
    spec_u32_to_le_bytes(v)
}

pub open spec fn enc_u64(v: u64) -> Seq<u8> {
    spec_u64_to_le_bytes(v)
}

pub open spec fn enc_i32(v: i32) -> Seq<u8> {
    enc_u32(v as u32)
}

/// The character a word stands for.
pub open spec fn char_of(v: u32) -> char {
    v as char
}

/// The word a character travels as.
pub open spec fn char_code(c: char) -> u32 {
    c as u32
}

/// The tag byte of a mouse button's wire form.
pub open spec fn button_tag(button: MouseButton) -> u8 {
    match button {
        MouseButton::Left => 0,
        MouseButton::Right => 1,
        MouseButton::Middle => 2,
        MouseButton::Back => 3,
        MouseButton::Forward => 4,
        MouseButton::Other(_) => 5,
    }
}

/// The code byte of a mouse button's wire form; zero but for the opaque
/// escape hatch.
pub open spec fn button_code(button: MouseButton) -> u8 {
    match button {
        MouseButton::Other(code) => code,
        _ => 0,
    }
}

/// The mouse button a tag byte stands for; the code is read only by the
/// opaque escape hatch's tag.
pub open spec fn button_of_tag(tag: u8, code: u8) -> MouseButton {
    match tag {
        0u8 => MouseButton::Left,
        1u8 => MouseButton::Right,
        2u8 => MouseButton::Middle,
        3u8 => MouseButton::Back,
        4u8 => MouseButton::Forward,
        _ => MouseButton::Other(code),
    }
}

/// The code word of a key's wire form; zero but for the opaque escape hatch.
pub open spec fn key_code(key: Key) -> u32 {
    match key {
        Key::Other(code) => code,
        _ => 0,
    }
}

/// The tag byte of a key location's wire form.
pub open spec fn loc_tag(location: KeyLocation) -> u8 {
    match location {
        KeyLocation::Standard => 0,
        KeyLocation::Left => 1,
        KeyLocation::Right => 2,
        KeyLocation::Numpad => 3,
    }
}

/// The key location a tag byte stands for.
pub open spec fn loc_of_tag(tag: u8) -> KeyLocation {
    match tag {
        0u8 => KeyLocation::Standard,
        1u8 => KeyLocation::Left,
        2u8 => KeyLocation::Right,
        _ => KeyLocation::Numpad,
    }
}

/// The tag byte of a logical key's wire form; the opaque escape hatch has
/// the last tag and carries its code in the following word.
pub open spec fn key_tag(key: Key) -> u8 {
    match key {
        Key::Backspace => 0,
        Key::Tab => 1,
        Key::Enter => 2,
        Key::Shift => 3,
        Key::Ctrl => 4,
        Key::Alt => 5,
        Key::CapsLock => 6,
        Key::Escape => 7,
        Key::Space => 8,
        Key::PageUp => 9,
        Key::PageDown => 10,
        Key::End => 11,
        Key::Home => 12,
        Key::ArrowLeft => 13,
        Key::ArrowUp => 14,
        Key::ArrowRight => 15,
        Key::ArrowDown => 16,
        Key::PrintScreen => 17,
        Key::Insert => 18,
        Key::Delete => 19,
        Key::Num0 => 20,
        Key::Num1 => 21,
        Key::Num2 => 22,
        Key::Num3 => 23,
        Key::Num4 => 24,
        Key::Num5 => 25,
        Key::Num6 => 26,
        Key::Num7 => 27,
        Key::Num8 => 28,
        Key::Num9 => 29,
        Key::A => 30,
        Key::B => 31,
        Key::C => 32,
        Key::D => 33,
        Key::E => 34,
        Key::F => 35,
        Key::G => 36,
        Key::H => 37,
        Key::I => 38,
        Key::J => 39,
        Key::K => 40,
        Key::L => 41,
        Key::M => 42,
        Key::N => 43,
        Key::O => 44,
        Key::P => 45,
        Key::Q => 46,
        Key::R => 47,
        Key::S => 48,
        Key::T => 49,
        Key::U => 50,
        Key::V => 51,
        Key::W => 52,
        Key::X => 53,
        Key::Y => 54,
        Key::Z => 55,
        Key::F1 => 56,
        Key::F2 => 57,
        Key::F3 => 58,
        Key::F4 => 59,
        Key::F5 => 60,
        Key::F6 => 61,
        Key::F7 => 62,
        Key::F8 => 63,
        Key::F9 => 64,
        Key::F10 => 65,
        Key::F11 => 66,
        Key::F12 => 67,
        Key::Semicolon => 68,
        Key::Equal => 69,
        Key::Comma => 70,
        Key::Minus => 71,
        Key::Period => 72,
        Key::Slash => 73,
        Key::Backquote => 74,
        Key::LeftBracket => 75,
        Key::Backslash => 76,
        Key::RightBracket => 77,
        Key::Quote => 78,
        Key::Numpad0 => 79,
        Key::Numpad1 => 80,
        Key::Numpad2 => 81,
        Key::Numpad3 => 82,
        Key::Numpad4 => 83,
        Key::Numpad5 => 84,
        Key::Numpad6 => 85,
        Key::Numpad7 => 86,
        Key::Numpad8 => 87,
        Key::Numpad9 => 88,
        Key::NumpadMultiply => 89,
        Key::NumpadAdd => 90,
        Key::NumpadSubtract => 91,
        Key::NumpadDecimal => 92,
        Key::NumpadDivide => 93,
        Key::NumpadEnter => 94,
        Key::Meta => 95,
        Key::ContextMenu => 96,
        Key::VolumeMute => 97,
        Key::VolumeDown => 98,
        Key::VolumeUp => 99,
        Key::MediaPlayPause => 100,
        Key::MediaStop => 101,
        Key::MediaNextTrack => 102,
        Key::MediaPreviousTrack => 103,
        Key::Other(_) => 104,
    }
}

/// The logical key a tag byte stands for; the code is read only by the
/// opaque escape hatch's tag.
pub open spec fn key_of_tag(tag: u8, code: u32) -> Key {
    match tag {
        0u8 => Key::Backspace,
        1u8 => Key::Tab,
        2u8 => Key::Enter,
        3u8 => Key::Shift,
        4u8 => Key::Ctrl,
        5u8 => Key::Alt,
        6u8 => Key::CapsLock,
        7u8 => Key::Escape,
        8u8 => Key::Space,
        9u8 => Key::PageUp,
        10u8 => Key::PageDown,
        11u8 => Key::End,
        12u8 => Key::Home,
        13u8 => Key::ArrowLeft,
        14u8 => Key::ArrowUp,
        15u8 => Key::ArrowRight,
        16u8 => Key::ArrowDown,
        17u8 => Key::PrintScreen,
        18u8 => Key::Insert,
        19u8 => Key::Delete,
        20u8 => Key::Num0,
        21u8 => Key::Num1,
        22u8 => Key::Num2,
        23u8 => Key::Num3,
        24u8 => Key::Num4,
        25u8 => Key::Num5,
        26u8 => Key::Num6,
        27u8 => Key::Num7,
        28u8 => Key::Num8,
        29u8 => Key::Num9,
        30u8 => Key::A,
        31u8 => Key::B,
        32u8 => Key::C,
        33u8 => Key::D,
        34u8 => Key::E,
        35u8 => Key::F,
        36u8 => Key::G,
        37u8 => Key::H,
        38u8 => Key::I,
        39u8 => Key::J,
        40u8 => Key::K,
        41u8 => Key::L,
        42u8 => Key::M,
        43u8 => Key::N,
        44u8 => Key::O,
        45u8 => Key::P,
        46u8 => Key::Q,
        47u8 => Key::R,
        48u8 => Key::S,
        49u8 => Key::T,
        50u8 => Key::U,
        51u8 => Key::V,
        52u8 => Key::W,
        53u8 => Key::X,
        54u8 => Key::Y,
        55u8 => Key::Z,
        56u8 => Key::F1,
        57u8 => Key::F2,
        58u8 => Key::F3,
        59u8 => Key::F4,
        60u8 => Key::F5,
        61u8 => Key::F6,
        62u8 => Key::F7,
        63u8 => Key::F8,
        64u8 => Key::F9,
        65u8 => Key::F10,
        66u8 => Key::F11,
        67u8 => Key::F12,
        68u8 => Key::Semicolon,
        69u8 => Key::Equal,
        70u8 => Key::Comma,
        71u8 => Key::Minus,
        72u8 => Key::Period,
        73u8 => Key::Slash,
        74u8 => Key::Backquote,
        75u8 => Key::LeftBracket,
        76u8 => Key::Backslash,
        77u8 => Key::RightBracket,
        78u8 => Key::Quote,
        79u8 => Key::Numpad0,
        80u8 => Key::Numpad1,
        81u8 => Key::Numpad2,
        82u8 => Key::Numpad3,
        83u8 => Key::Numpad4,
        84u8 => Key::Numpad5,
        85u8 => Key::Numpad6,
        86u8 => Key::Numpad7,
        87u8 => Key::Numpad8,
        88u8 => Key::Numpad9,
        89u8 => Key::NumpadMultiply,
        90u8 => Key::NumpadAdd,
        91u8 => Key::NumpadSubtract,
        92u8 => Key::NumpadDecimal,
        93u8 => Key::NumpadDivide,
        94u8 => Key::NumpadEnter,
        95u8 => Key::Meta,
        96u8 => Key::ContextMenu,
        97u8 => Key::VolumeMute,
        98u8 => Key::VolumeDown,
        99u8 => Key::VolumeUp,
        100u8 => Key::MediaPlayPause,
        101u8 => Key::MediaStop,
        102u8 => Key::MediaNextTrack,
        103u8 => Key::MediaPreviousTrack,
        _ => Key::Other(code),
    }
}

/// Returns the tag byte of a logical key's wire form.
fn key_tag_of(key: Key) -> (tag: u8)
    ensures
        tag == key_tag(key),
{
    match key {
        Key::Backspace => 0,
        Key::Tab => 1,
        Key::Enter => 2,
        Key::Shift => 3,
        Key::Ctrl => 4,
        Key::Alt => 5,
        Key::CapsLock => 6,
        Key::Escape => 7,
        Key::Space => 8,
        Key::PageUp => 9,
        Key::PageDown => 10,
        Key::End => 11,
        Key::Home => 12,
        Key::ArrowLeft => 13,
        Key::ArrowUp => 14,
        Key::ArrowRight => 15,
        Key::ArrowDown => 16,
        Key::PrintScreen => 17,
        Key::Insert => 18,
        Key::Delete => 19,
        Key::Num0 => 20,
        Key::Num1 => 21,
        Key::Num2 => 22,
        Key::Num3 => 23,
        Key::Num4 => 24,
        Key::Num5 => 25,
        Key::Num6 => 26,
        Key::Num7 => 27,
        Key::Num8 => 28,
        Key::Num9 => 29,
        Key::A => 30,
        Key::B => 31,
        Key::C => 32,
        Key::D => 33,
        Key::E => 34,
        Key::F => 35,
        Key::G => 36,
        Key::H => 37,
        Key::I => 38,
        Key::J => 39,
        Key::K => 40,
        Key::L => 41,
        Key::M => 42,
        Key::N => 43,
        Key::O => 44,
        Key::P => 45,
        Key::Q => 46,
        Key::R => 47,
        Key::S => 48,
        Key::T => 49,
        Key::U => 50,
        Key::V => 51,
        Key::W => 52,
        Key::X => 53,
        Key::Y => 54,
        Key::Z => 55,
        Key::F1 => 56,
        Key::F2 => 57,
        Key::F3 => 58,
        Key::F4 => 59,
        Key::F5 => 60,
        Key::F6 => 61,
        Key::F7 => 62,
        Key::F8 => 63,
        Key::F9 => 64,
        Key::F10 => 65,
        Key::F11 => 66,
        Key::F12 => 67,
        Key::Semicolon => 68,
        Key::Equal => 69,
        Key::Comma => 70,
        Key::Minus => 71,
        Key::Period => 72,
        Key::Slash => 73,
        Key::Backquote => 74,
        Key::LeftBracket => 75,
        Key::Backslash => 76,
        Key::RightBracket => 77,
        Key::Quote => 78,
        Key::Numpad0 => 79,
        Key::Numpad1 => 80,
        Key::Numpad2 => 81,
        Key::Numpad3 => 82,
        Key::Numpad4 => 83,
        Key::Numpad5 => 84,
        Key::Numpad6 => 85,
        Key::Numpad7 => 86,
        Key::Numpad8 => 87,
        Key::Numpad9 => 88,
        Key::NumpadMultiply => 89,
        Key::NumpadAdd => 90,
        Key::NumpadSubtract => 91,
        Key::NumpadDecimal => 92,
        Key::NumpadDivide => 93,
        Key::NumpadEnter => 94,
        Key::Meta => 95,
        Key::ContextMenu => 96,
        Key::VolumeMute => 97,
        Key::VolumeDown => 98,
        Key::VolumeUp => 99,
        Key::MediaPlayPause => 100,
        Key::MediaStop => 101,
        Key::MediaNextTrack => 102,
        Key::MediaPreviousTrack => 103,
        Key::Other(_) => 104,
    }
}

/// Returns the logical key a tag byte stands for.
fn key_from_tag(tag: u8, code: u32) -> (key: Key)
    ensures
        key == key_of_tag(tag, code),
{
    match tag {
        0u8 => Key::Backspace,
        1u8 => Key::Tab,
        2u8 => Key::Enter,
        3u8 => Key::Shift,
        4u8 => Key::Ctrl,
        5u8 => Key::Alt,
        6u8 => Key::CapsLock,
        7u8 => Key::Escape,
        8u8 => Key::Space,
        9u8 => Key::PageUp,
        10u8 => Key::PageDown,
        11u8 => Key::End,
        12u8 => Key::Home,
        13u8 => Key::ArrowLeft,
        14u8 => Key::ArrowUp,
        15u8 => Key::ArrowRight,
        16u8 => Key::ArrowDown,
        17u8 => Key::PrintScreen,
        18u8 => Key::Insert,
        19u8 => Key::Delete,
        20u8 => Key::Num0,
        21u8 => Key::Num1,
        22u8 => Key::Num2,
        23u8 => Key::Num3,
        24u8 => Key::Num4,
        25u8 => Key::Num5,
        26u8 => Key::Num6,
        27u8 => Key::Num7,
        28u8 => Key::Num8,
        29u8 => Key::Num9,
        30u8 => Key::A,
        31u8 => Key::B,
        32u8 => Key::C,
        33u8 => Key::D,
        34u8 => Key::E,
        35u8 => Key::F,
        36u8 => Key::G,
        37u8 => Key::H,
        38u8 => Key::I,
        39u8 => Key::J,
        40u8 => Key::K,
        41u8 => Key::L,
        42u8 => Key::M,
        43u8 => Key::N,
        44u8 => Key::O,
        45u8 => Key::P,
        46u8 => Key::Q,
        47u8 => Key::R,
        48u8 => Key::S,
        49u8 => Key::T,
        50u8 => Key::U,
        51u8 => Key::V,
        52u8 => Key::W,
        53u8 => Key::X,
        54u8 => Key::Y,
        55u8 => Key::Z,
        56u8 => Key::F1,
        57u8 => Key::F2,
        58u8 => Key::F3,
        59u8 => Key::F4,
        60u8 => Key::F5,
        61u8 => Key::F6,
        62u8 => Key::F7,
        63u8 => Key::F8,
        64u8 => Key::F9,
        65u8 => Key::F10,
        66u8 => Key::F11,
        67u8 => Key::F12,
        68u8 => Key::Semicolon,
        69u8 => Key::Equal,
        70u8 => Key::Comma,
        71u8 => Key::Minus,
        72u8 => Key::Period,
        73u8 => Key::Slash,
        74u8 => Key::Backquote,
        75u8 => Key::LeftBracket,
        76u8 => Key::Backslash,
        77u8 => Key::RightBracket,
        78u8 => Key::Quote,
        79u8 => Key::Numpad0,
        80u8 => Key::Numpad1,
        81u8 => Key::Numpad2,
        82u8 => Key::Numpad3,
        83u8 => Key::Numpad4,
        84u8 => Key::Numpad5,
        85u8 => Key::Numpad6,
        86u8 => Key::Numpad7,
        87u8 => Key::Numpad8,
        88u8 => Key::Numpad9,
        89u8 => Key::NumpadMultiply,
        90u8 => Key::NumpadAdd,
        91u8 => Key::NumpadSubtract,
        92u8 => Key::NumpadDecimal,
        93u8 => Key::NumpadDivide,
        94u8 => Key::NumpadEnter,
        95u8 => Key::Meta,
        96u8 => Key::ContextMenu,
        97u8 => Key::VolumeMute,
        98u8 => Key::VolumeDown,
        99u8 => Key::VolumeUp,
        100u8 => Key::MediaPlayPause,
        101u8 => Key::MediaStop,
        102u8 => Key::MediaNextTrack,
        103u8 => Key::MediaPreviousTrack,
        _ => Key::Other(code),
    }
}

// --- the wire form of the compound values --------------------------------

pub open spec fn enc_button(button: MouseButton) -> Seq<u8> {
    seq![button_tag(button), button_code(button)]
}

pub open spec fn enc_key(key: Key) -> Seq<u8> {
    seq![key_tag(key)] + enc_u32(key_code(key))
}

pub open spec fn enc_opt_loc(location: Option<KeyLocation>) -> Seq<u8> {
    match location {
        None => seq![0u8],
        Some(l) => seq![1u8, loc_tag(l)],
    }
}

pub open spec fn enc_opt_u64(v: Option<u64>) -> Seq<u8> {
    match v {
        None => seq![0u8],
        Some(d) => seq![1u8] + enc_u64(d),
    }
}

pub open spec fn enc_chars(text: Seq<char>) -> Seq<u8>
    decreases text.len(),
{
    if text.len() == 0 {
        seq![]
    } else {
        enc_u32(char_code(text[0])) + enc_chars(text.drop_first())
    }
}

pub open spec fn enc_keys(keys: Seq<Key>) -> Seq<u8>
    decreases keys.len(),
{
    if keys.len() == 0 {
        seq![]
    } else {
        enc_key(keys[0]) + enc_keys(keys.drop_first())
    }
}

/// The wire form of one action: a tag byte, then the fields in order, lists
/// preceded by their count.
pub open spec fn enc_action(action: ActionV) -> Seq<u8>
    decreases action,
{
    match action {
        ActionV::MouseMove { x, y } => seq![0u8] + enc_i32(x) + enc_i32(y),
        ActionV::MouseClick { button, x, y } => seq![1u8] + enc_button(button) + enc_i32(x)
            + enc_i32(y),
        ActionV::MouseDoubleClick { button, x, y } => seq![2u8] + enc_button(button) + enc_i32(x)
            + enc_i32(y),
        ActionV::MousePress { button, x, y, duration_ms } => seq![3u8] + enc_button(button)
            + enc_i32(x) + enc_i32(y) + enc_u64(duration_ms),
        ActionV::MouseDrag {
            button,
            start_x,
            start_y,
            end_x,
            end_y,
            duration_ms,
        } => seq![4u8] + enc_button(button) + enc_i32(start_x) + enc_i32(start_y) + enc_i32(end_x)
            + enc_i32(end_y) + enc_u64(duration_ms),
        ActionV::MouseScroll { delta_x, delta_y } => seq![5u8] + enc_i32(delta_x) + enc_i32(
            delta_y,
        ),
        ActionV::KeyPress { key, location } => seq![6u8] + enc_key(key) + enc_opt_loc(location),
        ActionV::KeyDown { key, location } => seq![7u8] + enc_key(key) + enc_opt_loc(location),
        ActionV::KeyUp { key, location } => seq![8u8] + enc_key(key) + enc_opt_loc(location),
        ActionV::KeySequence { keys, key_delay_ms } => seq![9u8] + enc_u64(keys.len() as u64)
            + enc_keys(keys) + enc_opt_u64(key_delay_ms),
        ActionV::TypeText { text, char_delay_ms } => seq![10u8] + enc_u64(text.len() as u64)
            + enc_chars(text) + enc_opt_u64(char_delay_ms),
        ActionV::Hotkey { modifiers, key, location } => seq![11u8] + enc_u64(
            modifiers.len() as u64,
        ) + enc_keys(modifiers) + enc_key(key) + enc_opt_loc(location),
        ActionV::Delay { milliseconds } => seq![12u8] + enc_u64(milliseconds),
        ActionV::Sequence { actions } => seq![13u8] + enc_u64(actions.len() as u64) + enc_actions(
            actions,
        ),
        ActionV::Parallel { actions } => seq![14u8] + enc_u64(actions.len() as u64) + enc_actions(
            actions,
        ),
    }
}

/// The wire form of a list of actions, one after the other.
pub open spec fn enc_actions(actions: Seq<ActionV>) -> Seq<u8>
    decreases actions,
{
    if actions.len() == 0 {
        seq![]
    } else {
        enc_action(actions[0]) + enc_actions(actions.drop_first())
    }
}

// --- reading the wire form back ------------------------------------------

/// The word stored at `pos`.
pub open spec fn u32_at(s: Seq<u8>, pos: int) -> u32 {
    spec_u32_from_le_bytes(s.subrange(pos, pos + 4))
}

/// The double word stored at `pos`.
pub open spec fn u64_at(s: Seq<u8>, pos: int) -> u64 {
    spec_u64_from_le_bytes(s.subrange(pos, pos + 8))
}

/// The signed value stored at `pos`.
pub open spec fn i32_at(s: Seq<u8>, pos: int) -> i32 {
    u32_at(s, pos) as i32
}

/// Reads an optional key location: what it holds and how many bytes it
/// took, or nothing when the bytes are not a location's wire form.
pub open spec fn dec_opt_loc(s: Seq<u8>) -> Option<(Option<KeyLocation>, int)> {
    if s.len() >= 1 && s[0] == 0 {
        Some((None, 1))
    } else if s.len() >= 2 && s[0] == 1 && s[1] <= 3 {
        Some((Some(loc_of_tag(s[1])), 2))
    } else {
        None
    }
}

/// Reads an optional duration.
pub open spec fn dec_opt_u64(s: Seq<u8>) -> Option<(Option<u64>, int)> {
    if s.len() >= 1 && s[0] == 0 {
        Some((None, 1))
    } else if s.len() >= 9 && s[0] == 1 {
        Some((Some(u64_at(s, 1)), 9))
    } else {
        None
    }
}

/// Reads one key.
pub open spec fn dec_key(s: Seq<u8>) -> Option<(Key, int)> {
    if s.len() >= 5 && s[0] <= 104 {
        Some((key_of_tag(s[0], u32_at(s, 1)), 5))
    } else {
        None
    }
}

/// Reads `n` characters, one word each; a word must be a Unicode scalar
/// value.
pub open spec fn dec_chars(s: Seq<u8>, n: int) -> Option<(Seq<char>, int)>
    decreases n,
{
    if n <= 0 {
        Some((seq![], 0))
    } else if s.len() >= 4 && is_scalar(u32_at(s, 0)) {
        match dec_chars(s.skip(4), n - 1) {
            Some(rest) => Some((seq![char_of(u32_at(s, 0))] + rest.0, 4 + rest.1)),
            None => None,
        }
    } else {
        None
    }
}

/// Reads `n` keys.
pub open spec fn dec_keys(s: Seq<u8>, n: int) -> Option<(Seq<Key>, int)>
    decreases n,
{
    if n <= 0 {
        Some((seq![], 0))
    } else {
        match dec_key(s) {
            Some(first) => match dec_keys(s.skip(5), n - 1) {
                Some(rest) => Some((seq![first.0] + rest.0, 5 + rest.1)),
                None => None,
            },
            None => None,
        }
    }
}

/// The key action a tag byte stands for.
pub open spec fn mk_key_action(tag: u8, key: Key, location: Option<KeyLocation>) -> ActionV {
    if tag == 6 {
        ActionV::KeyPress { key, location }
    } else if tag == 7 {
        ActionV::KeyDown { key, location }
    } else {
        ActionV::KeyUp { key, location }
    }
}

/// The composite action a tag byte stands for.
pub open spec fn mk_list_action(tag: u8, actions: Seq<ActionV>) -> ActionV {
    if tag == 13 {
        ActionV::Sequence { actions }
    } else {
        ActionV::Parallel { actions }
    }
}

/// The typed-text action.
pub open spec fn mk_type_text(text: Seq<char>, char_delay_ms: Option<u64>) -> ActionV {
    ActionV::TypeText { text, char_delay_ms }
}

/// Reads one action: the action and how many bytes it took, or nothing when
/// the bytes are not an action's wire form.
pub open spec fn dec_action(s: Seq<u8>) -> Option<(ActionV, int)>
    decreases s.len(), 0int,
{
    if s.len() < 1 {
        None
    } else {
        let tag = s[0];
        let r = s.skip(1);
        if tag == 0 {
            if r.len() >= 8 {
                Some((ActionV::MouseMove { x: i32_at(r, 0), y: i32_at(r, 4) }, 9))
            } else {
                None
            }
        } else if tag == 1 || tag == 2 {
            if r.len() >= 10 && r[0] <= 5 {
                let button = button_of_tag(r[0], r[1]);
                let x = i32_at(r, 2);
                let y = i32_at(r, 6);
                if tag == 1 {
                    Some((ActionV::MouseClick { button, x, y }, 11))
                } else {
                    Some((ActionV::MouseDoubleClick { button, x, y }, 11))
                }
            } else {
                None
            }
        } else if tag == 3 {
            if r.len() >= 18 && r[0] <= 5 {
                Some(
                    (
                        ActionV::MousePress {
                            button: button_of_tag(r[0], r[1]),
                            x: i32_at(r, 2),
                            y: i32_at(r, 6),
                            duration_ms: u64_at(r, 10),
                        },
                        19,
                    ),
                )
            } else {
                None
            }
        } else if tag == 4 {
            if r.len() >= 26 && r[0] <= 5 {
                Some(
                    (
                        ActionV::MouseDrag {
                            button: button_of_tag(r[0], r[1]),
                            start_x: i32_at(r, 2),
                            start_y: i32_at(r, 6),
                            end_x: i32_at(r, 10),
                            end_y: i32_at(r, 14),
                            duration_ms: u64_at(r, 18),
                        },
                        27,
                    ),
                )
            } else {
                None
            }
        } else if tag == 5 {
            if r.len() >= 8 {
                Some((ActionV::MouseScroll { delta_x: i32_at(r, 0), delta_y: i32_at(r, 4) }, 9))
            } else {
                None
            }
        } else if tag == 6 || tag == 7 || tag == 8 {
            match dec_key(r) {
                Some(k) => match dec_opt_loc(r.skip(5)) {
                    Some(l) => Some((mk_key_action(tag, k.0, l.0), 6 + l.1)),
                    None => None,
                },
                None => None,
            }
        } else if tag == 9 {
            if r.len() >= 8 {
                match dec_keys(r.skip(8), u64_at(r, 0) as int) {
                    Some(ks) => if 0 <= ks.1 <= r.len() - 8 {
                        match dec_opt_u64(r.skip(8 + ks.1)) {
                            Some(d) => Some(
                                (
                                    ActionV::KeySequence { keys: ks.0, key_delay_ms: d.0 },
                                    9 + ks.1 + d.1,
                                ),
                            ),
                            None => None,
                        }
                    } else {
                        None
                    },
                    None => None,
                }
            } else {
                None
            }
        } else if tag == 10 {
            if r.len() >= 8 {
                match dec_chars(r.skip(8), u64_at(r, 0) as int) {
                    Some(cs) => if 0 <= cs.1 <= r.len() - 8 {
                        match dec_opt_u64(r.skip(8 + cs.1)) {
                            Some(d) => Some((mk_type_text(cs.0, d.0), 9 + cs.1 + d.1)),
                            None => None,
                        }
                    } else {
                        None
                    },
                    None => None,
                }
            } else {
                None
            }
        } else if tag == 11 {
            if r.len() >= 8 {
                match dec_keys(r.skip(8), u64_at(r, 0) as int) {
                    Some(ks) => if 0 <= ks.1 <= r.len() - 8 {
                        match dec_key(r.skip(8 + ks.1)) {
                            Some(k) => match dec_opt_loc(r.skip(13 + ks.1)) {
                                Some(l) => Some(
                                    (
                                        ActionV::Hotkey {
                                            modifiers: ks.0,
                                            key: k.0,
                                            location: l.0,
                                        },
                                        14 + ks.1 + l.1,
                                    ),
                                ),
                                None => None,
                            },
                            None => None,
                        }
                    } else {
                        None
                    },
                    None => None,
                }
            } else {
                None
            }
        } else if tag == 12 {
            if r.len() >= 8 {
                Some((ActionV::Delay { milliseconds: u64_at(r, 0) }, 9))
            } else {
                None
            }
        } else if tag == 13 || tag == 14 {
            if r.len() >= 8 {
                match dec_actions(r.skip(8), u64_at(r, 0) as int) {
                    Some(vs) => Some((mk_list_action(tag, vs.0), 9 + vs.1)),
                    None => None,
                }
            } else {
                None
            }
        } else {
            None
        }
    }
}

/// Reads `n` actions, one after the other.
pub open spec fn dec_actions(s: Seq<u8>, n: int) -> Option<(Seq<ActionV>, int)>
    decreases s.len(), n,
{
    if n <= 0 {
        Some((seq![], 0))
    } else {
        match dec_action(s) {
            Some(first) => if 1 <= first.1 <= s.len() {
                match dec_actions(s.skip(first.1), n - 1) {
                    Some(rest) => Some((seq![first.0] + rest.0, first.1 + rest.1)),
                    None => None,
                }
            } else {
                None
            },
            None => None,
        }
    }
}

// --- the round-trip law --------------------------------------------------

/// A signed value survives the trip through its unsigned wire form.
proof fn lemma_i32_round(v: i32)
    ensures
        (v as u32) as i32 == v,
{
    assert((v as u32) as i32 == v) by (bit_vector);
}

/// A key survives the trip through its tag and code.
proof fn lemma_key_round(key: Key)
    ensures
        key_tag(key) <= 104,
        key_of_tag(key_tag(key), key_code(key)) == key,
{
}

/// A button survives the trip through its tag and code.
proof fn lemma_button_round(button: MouseButton)
    ensures
        button_tag(button) <= 5,
        button_of_tag(button_tag(button), button_code(button)) == button,
{
}

/// Reading a key back from its wire form, whatever follows it.
proof fn lemma_dec_enc_key(key: Key, rest: Seq<u8>)
    ensures
        enc_key(key).len() == 5,
        dec_key(enc_key(key) + rest) == Some((key, 5int)),
{
    lemma_auto_spec_u32_to_from_le_bytes();
    lemma_key_round(key);
    let s = enc_key(key) + rest;
    assert(s.subrange(1, 5) =~= enc_u32(key_code(key)));
}

/// Reading an optional location back from its wire form.
proof fn lemma_dec_enc_opt_loc(location: Option<KeyLocation>, rest: Seq<u8>)
    ensures
        1 <= enc_opt_loc(location).len() <= 2,
        dec_opt_loc(enc_opt_loc(location) + rest) == Some(
            (location, enc_opt_loc(location).len() as int),
        ),
{
}

/// Reading an optional duration back from its wire form.
proof fn lemma_dec_enc_opt_u64(v: Option<u64>, rest: Seq<u8>)
    ensures
        1 <= enc_opt_u64(v).len() <= 9,
        dec_opt_u64(enc_opt_u64(v) + rest) == Some((v, enc_opt_u64(v).len() as int)),
{
    lemma_auto_spec_u64_to_from_le_bytes();
    if let Some(d) = v {
        let s = enc_opt_u64(v) + rest;
        assert(s.subrange(1, 9) =~= enc_u64(d));
    }
}

/// Reading a character list back from its wire form.
proof fn lemma_dec_enc_chars(text: Seq<char>, rest: Seq<u8>)
    ensures
        enc_chars(text).len() == 4 * text.len(),
        dec_chars(enc_chars(text) + rest, text.len() as int) == Some(
            (text, enc_chars(text).len() as int),
        ),
    decreases text.len(),
{
    lemma_auto_spec_u32_to_from_le_bytes();
    if text.len() == 0 {
        assert(text =~= Seq::<char>::empty());
    } else {
        let s = enc_chars(text) + rest;
        let tail = text.drop_first();
        lemma_dec_enc_chars(tail, rest);
        char_is_scalar(text[0]);
        char_u32_cast(text[0], char_code(text[0]));
        assert(s.subrange(0, 4) =~= enc_u32(char_code(text[0])));
        assert(u32_at(s, 0) == char_code(text[0]));
        assert(s.skip(4) =~= enc_chars(tail) + rest);
        assert(seq![char_of(u32_at(s, 0))] + tail =~= text);
    }
}

/// Reading a key list back from its wire form.
proof fn lemma_dec_enc_keys(keys: Seq<Key>, rest: Seq<u8>)
    ensures
        enc_keys(keys).len() == 5 * keys.len(),
        dec_keys(enc_keys(keys) + rest, keys.len() as int) == Some(
            (keys, enc_keys(keys).len() as int),
        ),
    decreases keys.len(),
{
    if keys.len() == 0 {
        assert(keys =~= Seq::<Key>::empty());
    } else {
        let s = enc_keys(keys) + rest;
        let tail = keys.drop_first();
        lemma_dec_enc_keys(tail, rest);
        assert(s =~= enc_key(keys[0]) + (enc_keys(tail) + rest));
        lemma_dec_enc_key(keys[0], enc_keys(tail) + rest);
        assert(s.skip(5) =~= enc_keys(tail) + rest);
        assert(seq![keys[0]] + tail =~= keys);
    }
}

/// Reading one action back from its wire form, whatever follows it: the
/// whole round-trip law, stated for any continuation of the byte stream.
pub proof fn lemma_dec_enc_action(action: ActionV, rest: Seq<u8>)
    requires
        bounded(action),
    ensures
        enc_action(action).len() >= 1,
        dec_action(enc_action(action) + rest) == Some(
            (action, enc_action(action).len() as int),
        ),
    decreases action, 2int,
{
    match action {
        ActionV::MouseMove { x, y } => lemma_case_pointer(action, rest),
        ActionV::MouseClick { button, x, y } => lemma_case_button_click(action, rest),
        ActionV::MouseDoubleClick { button, x, y } => lemma_case_button_click(action, rest),
        ActionV::MousePress { button, x, y, duration_ms } => lemma_case_press(action, rest),
        ActionV::MouseDrag { button, start_x, start_y, end_x, end_y, duration_ms } => lemma_case_drag(
            action,
            rest,
        ),
        ActionV::MouseScroll { delta_x, delta_y } => lemma_case_pointer(action, rest),
        ActionV::KeyPress { key, location } => lemma_case_key(action, rest),
        ActionV::KeyDown { key, location } => lemma_case_key(action, rest),
        ActionV::KeyUp { key, location } => lemma_case_key(action, rest),
        ActionV::KeySequence { keys, key_delay_ms } => lemma_case_key_sequence(action, rest),
        ActionV::TypeText { text, char_delay_ms } => lemma_case_type_text(action, rest),
        ActionV::Hotkey { modifiers, key, location } => lemma_case_hotkey(action, rest),
        ActionV::Delay { milliseconds } => lemma_case_delay(action, rest),
        ActionV::Sequence { actions } => lemma_case_list(action, rest),
        ActionV::Parallel { actions } => lemma_case_list(action, rest),
    }
}

/// The round trip of a pointer move or scroll: a tag and two coordinates.
proof fn lemma_case_pointer(action: ActionV, rest: Seq<u8>)
    requires
        action is MouseMove || action is MouseScroll,
    ensures
        enc_action(action).len() >= 1,
        dec_action(enc_action(action) + rest) == Some(
            (action, enc_action(action).len() as int),
        ),
{
    lemma_auto_spec_u32_to_from_le_bytes();
    let s = enc_action(action) + rest;
    let r = s.skip(1);
    let (x, y) = if action is MouseMove {
        (action->MouseMove_x, action->MouseMove_y)
    } else {
        (action->MouseScroll_delta_x, action->MouseScroll_delta_y)
    };
    assert(r =~= enc_i32(x) + enc_i32(y) + rest);
    assert(r.subrange(0, 4) =~= enc_u32(x as u32));
    assert(r.subrange(4, 8) =~= enc_u32(y as u32));
    lemma_i32_round(x);
    lemma_i32_round(y);
}

/// The round trip of a click or double click: a tag, a button and a
/// position.
proof fn lemma_case_button_click(action: ActionV, rest: Seq<u8>)
    requires
        action is MouseClick || action is MouseDoubleClick,
    ensures
        enc_action(action).len() >= 1,
        dec_action(enc_action(action) + rest) == Some(
            (action, enc_action(action).len() as int),
        ),
{
    lemma_auto_spec_u32_to_from_le_bytes();
    let s = enc_action(action) + rest;
    let r = s.skip(1);
    let (button, x, y) = if action is MouseClick {
        (action->MouseClick_button, action->MouseClick_x, action->MouseClick_y)
    } else {
        (action->MouseDoubleClick_button, action->MouseDoubleClick_x, action->MouseDoubleClick_y)
    };
    lemma_button_round(button);
    assert(r =~= enc_button(button) + enc_i32(x) + enc_i32(y) + rest);
    assert(r.subrange(2, 6) =~= enc_u32(x as u32));
    assert(r.subrange(6, 10) =~= enc_u32(y as u32));
    lemma_i32_round(x);
    lemma_i32_round(y);
}

/// The round trip of a long press: a tag, a button, a position and a
/// duration.
proof fn lemma_case_press(action: ActionV, rest: Seq<u8>)
    requires
        action is MousePress,
    ensures
        enc_action(action).len() >= 1,
        dec_action(enc_action(action) + rest) == Some(
            (action, enc_action(action).len() as int),
        ),
{
    lemma_auto_spec_u32_to_from_le_bytes();
    lemma_auto_spec_u64_to_from_le_bytes();
    let s = enc_action(action) + rest;
    let r = s.skip(1);
    let button = action->MousePress_button;
    let x = action->MousePress_x;
    let y = action->MousePress_y;
    let duration_ms = action->MousePress_duration_ms;
    lemma_button_round(button);
    assert(r =~= enc_button(button) + enc_i32(x) + enc_i32(y) + enc_u64(duration_ms) + rest);
    assert(r.subrange(2, 6) =~= enc_u32(x as u32));
    assert(r.subrange(6, 10) =~= enc_u32(y as u32));
    assert(r.subrange(10, 18) =~= enc_u64(duration_ms));
    lemma_i32_round(x);
    lemma_i32_round(y);
}

/// The round trip of a drag: a tag, a button, two positions and a duration.
proof fn lemma_case_drag(action: ActionV, rest: Seq<u8>)
    requires
        action is MouseDrag,
    ensures
        enc_action(action).len() >= 1,
        dec_action(enc_action(action) + rest) == Some(
            (action, enc_action(action).len() as int),
        ),
{
    lemma_auto_spec_u32_to_from_le_bytes();
    lemma_auto_spec_u64_to_from_le_bytes();
    let s = enc_action(action) + rest;
    let r = s.skip(1);
    let button = action->MouseDrag_button;
    let start_x = action->MouseDrag_start_x;
    let start_y = action->MouseDrag_start_y;
    let end_x = action->MouseDrag_end_x;
    let end_y = action->MouseDrag_end_y;
    let duration_ms = action->MouseDrag_duration_ms;
    lemma_button_round(button);
    assert(r =~= enc_button(button) + enc_i32(start_x) + enc_i32(start_y) + enc_i32(end_x)
        + enc_i32(end_y) + enc_u64(duration_ms) + rest);
    assert(r.subrange(2, 6) =~= enc_u32(start_x as u32));
    assert(r.subrange(6, 10) =~= enc_u32(start_y as u32));
    assert(r.subrange(10, 14) =~= enc_u32(end_x as u32));
    assert(r.subrange(14, 18) =~= enc_u32(end_y as u32));
    assert(r.subrange(18, 26) =~= enc_u64(duration_ms));
    lemma_i32_round(start_x);
    lemma_i32_round(start_y);
    lemma_i32_round(end_x);
    lemma_i32_round(end_y);
}

/// The round trip of a key press, key down or key up: a tag, a key and an
/// optional location.
proof fn lemma_case_key(action: ActionV, rest: Seq<u8>)
    requires
        action is KeyPress || action is KeyDown || action is KeyUp,
    ensures
        enc_action(action).len() >= 1,
        dec_action(enc_action(action) + rest) == Some(
            (action, enc_action(action).len() as int),
        ),
{
    let s = enc_action(action) + rest;
    let r = s.skip(1);
    let (key, location) = if action is KeyPress {
        (action->KeyPress_key, action->KeyPress_location)
    } else if action is KeyDown {
        (action->KeyDown_key, action->KeyDown_location)
    } else {
        (action->KeyUp_key, action->KeyUp_location)
    };
    assert(r =~= enc_key(key) + (enc_opt_loc(location) + rest));
    lemma_dec_enc_key(key, enc_opt_loc(location) + rest);
    assert(r.skip(5) =~= enc_opt_loc(location) + rest);
    lemma_dec_enc_opt_loc(location, rest);
}

/// The round trip of a key sequence: a tag, a counted key list and an
/// optional delay.
proof fn lemma_case_key_sequence(action: ActionV, rest: Seq<u8>)
    requires
        action is KeySequence,
        bounded(action),
    ensures
        enc_action(action).len() >= 1,
        dec_action(enc_action(action) + rest) == Some(
            (action, enc_action(action).len() as int),
        ),
{
    lemma_auto_spec_u64_to_from_le_bytes();
    let s = enc_action(action) + rest;
    let r = s.skip(1);
    let keys = action->KeySequence_keys;
    let key_delay_ms = action->KeySequence_key_delay_ms;
    let tail = enc_opt_u64(key_delay_ms) + rest;
    assert(r =~= enc_u64(keys.len() as u64) + (enc_keys(keys) + tail));
    assert(r.subrange(0, 8) =~= enc_u64(keys.len() as u64));
    assert(u64_at(r, 0) as int == keys.len());
    assert(r.skip(8) =~= enc_keys(keys) + tail);
    lemma_dec_enc_keys(keys, tail);
    assert(r.skip(8 + 5 * keys.len() as int) =~= tail);
    lemma_dec_enc_opt_u64(key_delay_ms, rest);
}

/// The round trip of typed text: a tag, a counted character list and an
/// optional delay.
proof fn lemma_case_type_text(action: ActionV, rest: Seq<u8>)
    requires
        action is TypeText,
        bounded(action),
    ensures
        enc_action(action).len() >= 1,
        dec_action(enc_action(action) + rest) == Some(
            (action, enc_action(action).len() as int),
        ),
{
    lemma_auto_spec_u64_to_from_le_bytes();
    let s = enc_action(action) + rest;
    let r = s.skip(1);
    let text = action->TypeText_text;
    let char_delay_ms = action->TypeText_char_delay_ms;
    let tail = enc_opt_u64(char_delay_ms) + rest;
    assert(r =~= enc_u64(text.len() as u64) + (enc_chars(text) + tail));
    assert(r.subrange(0, 8) =~= enc_u64(text.len() as u64));
    assert(u64_at(r, 0) as int == text.len());
    assert(r.skip(8) =~= enc_chars(text) + tail);
    lemma_dec_enc_chars(text, tail);
    assert(r.skip(8 + 4 * text.len() as int) =~= tail);
    lemma_dec_enc_opt_u64(char_delay_ms, rest);
}

/// The round trip of a hotkey: a tag, a counted modifier list, the main key
/// and an optional location.
proof fn lemma_case_hotkey(action: ActionV, rest: Seq<u8>)
    requires
        action is Hotkey,
        bounded(action),
    ensures
        enc_action(action).len() >= 1,
        dec_action(enc_action(action) + rest) == Some(
            (action, enc_action(action).len() as int),
        ),
{
    lemma_auto_spec_u64_to_from_le_bytes();
    let s = enc_action(action) + rest;
    let r = s.skip(1);
    let modifiers = action->Hotkey_modifiers;
    let key = action->Hotkey_key;
    let location = action->Hotkey_location;
    let tail = enc_key(key) + (enc_opt_loc(location) + rest);
    assert(r =~= enc_u64(modifiers.len() as u64) + (enc_keys(modifiers) + tail));
    assert(r.subrange(0, 8) =~= enc_u64(modifiers.len() as u64));
    assert(u64_at(r, 0) as int == modifiers.len());
    assert(r.skip(8) =~= enc_keys(modifiers) + tail);
    lemma_dec_enc_keys(modifiers, tail);
    assert(r.skip(8 + 5 * modifiers.len() as int) =~= tail);
    lemma_dec_enc_key(key, enc_opt_loc(location) + rest);
    assert(r.skip(13 + 5 * modifiers.len() as int) =~= enc_opt_loc(location) + rest);
    lemma_dec_enc_opt_loc(location, rest);
}

/// The round trip of a delay: a tag and a duration.
proof fn lemma_case_delay(action: ActionV, rest: Seq<u8>)
    requires
        action is Delay,
    ensures
        enc_action(action).len() >= 1,
        dec_action(enc_action(action) + rest) == Some(
            (action, enc_action(action).len() as int),
        ),
{
    lemma_auto_spec_u64_to_from_le_bytes();
    let s = enc_action(action) + rest;
    let r = s.skip(1);
    let milliseconds = action->Delay_milliseconds;
    assert(r =~= enc_u64(milliseconds) + rest);
    assert(r.subrange(0, 8) =~= enc_u64(milliseconds));
}

/// The round trip of a composite: a tag and a counted child list.
proof fn lemma_case_list(action: ActionV, rest: Seq<u8>)
    requires
        action is Sequence || action is Parallel,
        bounded(action),
    ensures
        enc_action(action).len() >= 1,
        dec_action(enc_action(action) + rest) == Some(
            (action, enc_action(action).len() as int),
        ),
    decreases action, 1int,
{
    lemma_auto_spec_u64_to_from_le_bytes();
    let s = enc_action(action) + rest;
    let r = s.skip(1);
    let actions = if action is Sequence {
        action->Sequence_actions
    } else {
        action->Parallel_actions
    };
    assert(r =~= enc_u64(actions.len() as u64) + (enc_actions(actions) + rest));
    assert(r.subrange(0, 8) =~= enc_u64(actions.len() as u64));
    assert(u64_at(r, 0) as int == actions.len());
    assert(r.skip(8) =~= enc_actions(actions) + rest);
    lemma_dec_enc_actions(actions, rest);
}

/// Reading a list of actions back from its wire form, whatever follows it.
pub proof fn lemma_dec_enc_actions(actions: Seq<ActionV>, rest: Seq<u8>)
    requires
        bounded_all(actions),
    ensures
        dec_actions(enc_actions(actions) + rest, actions.len() as int) == Some(
            (actions, enc_actions(actions).len() as int),
        ),
    decreases actions, 0int,
{
    if actions.len() == 0 {
        assert(actions =~= Seq::<ActionV>::empty());
    } else {
        let head = actions[0];
        let tail = actions.drop_first();
        let s = enc_actions(actions) + rest;
        assert(s =~= enc_action(head) + (enc_actions(tail) + rest));
        lemma_dec_enc_action(head, enc_actions(tail) + rest);
        assert(s.skip(enc_action(head).len() as int) =~= enc_actions(tail) + rest);
        lemma_dec_enc_actions(tail, rest);
        assert(seq![head] + tail =~= actions);
    }
}

/// The transport round-trip law: an action's wire form, read back, yields
/// exactly the original action, consuming exactly the wire form.
pub proof fn lemma_codec_round_trip(action: ActionV)
    requires
        bounded(action),
    ensures
        dec_action(enc_action(action)) == Some((action, enc_action(action).len() as int)),
{
    lemma_dec_enc_action(action, seq![]);
    assert(enc_action(action) + seq![] =~= enc_action(action));
}

// --- writing the wire form -----------------------------------------------

/// Appending one more character extends the wire form by that character's
/// word.
proof fn lemma_enc_chars_snoc(text: Seq<char>, c: char)
    ensures
        enc_chars(text.push(c)) == enc_chars(text) + enc_u32(char_code(c)),
    decreases text.len(),
{
    let whole = text.push(c);
    if text.len() == 0 {
        reveal_with_fuel(enc_chars, 3);
        assert(whole.drop_first() =~= Seq::<char>::empty());
        assert(enc_chars(whole) =~= enc_chars(text) + enc_u32(char_code(c)));
    } else {
        lemma_enc_chars_snoc(text.drop_first(), c);
        assert(whole.drop_first() =~= text.drop_first().push(c));
        assert(enc_chars(whole) =~= enc_chars(text) + enc_u32(char_code(c)));
    }
}

/// Appending one more key extends the wire form by that key's bytes.
proof fn lemma_enc_keys_snoc(keys: Seq<Key>, key: Key)
    ensures
        enc_keys(keys.push(key)) == enc_keys(keys) + enc_key(key),
    decreases keys.len(),
{
    let whole = keys.push(key);
    if keys.len() == 0 {
        reveal_with_fuel(enc_keys, 3);
        assert(whole.drop_first() =~= Seq::<Key>::empty());
        assert(enc_keys(whole) =~= enc_keys(keys) + enc_key(key));
    } else {
        lemma_enc_keys_snoc(keys.drop_first(), key);
        assert(whole.drop_first() =~= keys.drop_first().push(key));
        assert(enc_keys(whole) =~= enc_keys(keys) + enc_key(key));
    }
}

/// Appending one more action extends the wire form by that action's bytes.
proof fn lemma_enc_actions_snoc(actions: Seq<ActionV>, action: ActionV)
    ensures
        enc_actions(actions.push(action)) == enc_actions(actions) + enc_action(action),
    decreases actions.len(),
{
    let whole = actions.push(action);
    if actions.len() == 0 {
        reveal_with_fuel(enc_actions, 3);
        assert(whole.drop_first() =~= Seq::<ActionV>::empty());
        assert(enc_actions(whole) =~= enc_actions(actions) + enc_action(action));
    } else {
        lemma_enc_actions_snoc(actions.drop_first(), action);
        assert(whole.drop_first() =~= actions.drop_first().push(action));
        assert(enc_actions(whole) =~= enc_actions(actions) + enc_action(action));
    }
}

/// The views of a list grow element by element.
proof fn lemma_action_views_snoc(actions: Seq<InputAction>, action: InputAction)
    ensures
        crate::enums::action_views(actions.push(action)) == crate::enums::action_views(
            actions,
        ).push(crate::enums::action_view(action)),
{
    let whole = actions.push(action);
    assert(whole.drop_last() =~= actions);
    assert(crate::enums::action_views(whole) =~= crate::enums::action_views(actions).push(
        crate::enums::action_view(action),
    ));
}

fn push_byte(out: &mut Vec<u8>, v: u8)
    ensures
        final(out)@ == old(out)@ + seq![v],
{
    let ghost before = out@;
    out.push(v);
    proof {
        assert(out@ =~= before + seq![v]);
    }
}

fn push_u32v(out: &mut Vec<u8>, v: u32)
    ensures
        final(out)@ == old(out)@ + enc_u32(v),
{
    let mut bytes = u32_to_le_bytes(v);
    out.append(&mut bytes);
}

fn push_u64v(out: &mut Vec<u8>, v: u64)
    ensures
        final(out)@ == old(out)@ + enc_u64(v),
{
    let mut bytes = u64_to_le_bytes(v);
    out.append(&mut bytes);
}

fn push_i32v(out: &mut Vec<u8>, v: i32)
    ensures
        final(out)@ == old(out)@ + enc_i32(v),
{
    push_u32v(out, v as u32);
}

/// Returns the tag byte of a button's wire form.
fn button_tag_of(button: MouseButton) -> (tag: u8)
    ensures
        tag == button_tag(button),
{
    match button {
        MouseButton::Left => 0,
        MouseButton::Right => 1,
        MouseButton::Middle => 2,
        MouseButton::Back => 3,
        MouseButton::Forward => 4,
        MouseButton::Other(_) => 5,
    }
}

/// Returns the code byte of a button's wire form.
fn button_code_of(button: MouseButton) -> (code: u8)
    ensures
        code == button_code(button),
{
    match button {
        MouseButton::Other(code) => code,
        _ => 0,
    }
}

/// Returns the code word of a key's wire form.
fn key_code_of(key: Key) -> (code: u32)
    ensures
        code == key_code(key),
{
    match key {
        Key::Other(code) => code,
        _ => 0,
    }
}

/// Returns the tag byte of a key location's wire form.
fn loc_tag_of(location: KeyLocation) -> (tag: u8)
    ensures
        tag == loc_tag(location),
{
    match location {
        KeyLocation::Standard => 0,
        KeyLocation::Left => 1,
        KeyLocation::Right => 2,
        KeyLocation::Numpad => 3,
    }
}

fn push_button(out: &mut Vec<u8>, button: MouseButton)
    ensures
        final(out)@ == old(out)@ + enc_button(button),
{
    let tag = button_tag_of(button);
    let code = button_code_of(button);
    push_byte(out, tag);
    push_byte(out, code);
    proof {
        assert(out@ =~= old(out)@ + enc_button(button));
    }
}

fn push_key(out: &mut Vec<u8>, key: Key)
    ensures
        final(out)@ == old(out)@ + enc_key(key),
{
    let tag = key_tag_of(key);
    let code = key_code_of(key);
    push_byte(out, tag);
    push_u32v(out, code);
    proof {
        assert(out@ =~= old(out)@ + enc_key(key));
    }
}

fn push_opt_loc(out: &mut Vec<u8>, location: Option<KeyLocation>)
    ensures
        final(out)@ == old(out)@ + enc_opt_loc(location),
{
    match location {
        None => {
            push_byte(out, 0);
        },
        Some(l) => {
            let tag = loc_tag_of(l);
            push_byte(out, 1);
            push_byte(out, tag);
            proof {
                assert(out@ =~= old(out)@ + enc_opt_loc(location));
            }
        },
    }
}

fn push_opt_u64(out: &mut Vec<u8>, v: Option<u64>)
    ensures
        final(out)@ == old(out)@ + enc_opt_u64(v),
{
    match v {
        None => {
            push_byte(out, 0);
        },
        Some(d) => {
            push_byte(out, 1);
            push_u64v(out, d);
            proof {
                assert(out@ =~= old(out)@ + enc_opt_u64(v));
            }
        },
    }
}

#[verifier::loop_isolation(false)]
fn push_chars(out: &mut Vec<u8>, text: &str)
    ensures
        final(out)@ == old(out)@ + enc_chars(text@),
{
    let ghost base = out@;
    proof {
        assert(base + enc_chars(text@.take(0)) =~= base);
    }
    for c in it: text.chars()
        invariant
            it.seq() == text@,
            0 <= it.index() <= text@.len(),
            out@ == base + enc_chars(text@.take(it.index() as int)),
    {
        push_u32v(out, c as u32);
        proof {
            let idx = it.index() as int;
            assert(c == text@[idx]);
            assert(text@.take(idx + 1) =~= text@.take(idx).push(c));
            lemma_enc_chars_snoc(text@.take(idx), c);
            assert(out@ =~= base + enc_chars(text@.take(idx + 1)));
        }
    }
    proof {
        assert(text@.take(text@.len() as int) =~= text@);
    }
}

#[verifier::loop_isolation(false)]
fn push_keys(out: &mut Vec<u8>, keys: &Vec<Key>)
    ensures
        final(out)@ == old(out)@ + enc_keys(keys@),
{
    let ghost base = out@;
    proof {
        assert(base + enc_keys(keys@.take(0)) =~= base);
    }
    let n = keys.len();
    for i in 0..n
        invariant
            n == keys.len(),
            out@ == base + enc_keys(keys@.take(i as int)),
    {
        push_key(out, keys[i]);
        proof {
            assert(keys@.take(i + 1) =~= keys@.take(i as int).push(keys@[i as int]));
            lemma_enc_keys_snoc(keys@.take(i as int), keys@[i as int]);
            assert(out@ =~= base + enc_keys(keys@.take(i + 1)));
        }
    }
    proof {
        assert(keys@.take(n as int) =~= keys@);
    }
}

/// Appends the wire form of one action tree.
#[verifier::loop_isolation(false)]
#[verifier::rlimit(100)]
fn encode_action_into(action: &InputAction, out: &mut Vec<u8>)
    ensures
        final(out)@ == old(out)@ + enc_action(action@),
    decreases *action,
{
    match action {
        InputAction::MouseMove { x, y } => {
            push_byte(out, 0);
            push_i32v(out, *x);
            push_i32v(out, *y);
            proof {
                assert(out@ =~= old(out)@ + enc_action(action@));
            }
        },
        InputAction::MouseClick { button, x, y } => {
            push_byte(out, 1);
            push_button(out, *button);
            push_i32v(out, *x);
            push_i32v(out, *y);
            proof {
                assert(out@ =~= old(out)@ + enc_action(action@));
            }
        },
        InputAction::MouseDoubleClick { button, x, y } => {
            push_byte(out, 2);
            push_button(out, *button);
            push_i32v(out, *x);
            push_i32v(out, *y);
            proof {
                assert(out@ =~= old(out)@ + enc_action(action@));
            }
        },
        InputAction::MousePress { button, x, y, duration_ms } => {
            push_byte(out, 3);
            push_button(out, *button);
            push_i32v(out, *x);
            push_i32v(out, *y);
            push_u64v(out, *duration_ms);
            proof {
                assert(out@ =~= old(out)@ + enc_action(action@));
            }
        },
        InputAction::MouseDrag { button, start_x, start_y, end_x, end_y, duration_ms } => {
            push_byte(out, 4);
            push_button(out, *button);
            push_i32v(out, *start_x);
            push_i32v(out, *start_y);
            push_i32v(out, *end_x);
            push_i32v(out, *end_y);
            push_u64v(out, *duration_ms);
            proof {
                assert(out@ =~= old(out)@ + enc_action(action@));
            }
        },
        InputAction::MouseScroll { delta_x, delta_y } => {
            push_byte(out, 5);
            push_i32v(out, *delta_x);
            push_i32v(out, *delta_y);
            proof {
                assert(out@ =~= old(out)@ + enc_action(action@));
            }
        },
        InputAction::KeyPress { key, location } => {
            push_byte(out, 6);
            push_key(out, *key);
            push_opt_loc(out, *location);
            proof {
                assert(out@ =~= old(out)@ + enc_action(action@));
            }
        },
        InputAction::KeyDown { key, location } => {
            push_byte(out, 7);
            push_key(out, *key);
            push_opt_loc(out, *location);
            proof {
                assert(out@ =~= old(out)@ + enc_action(action@));
            }
        },
        InputAction::KeyUp { key, location } => {
            push_byte(out, 8);
            push_key(out, *key);
            push_opt_loc(out, *location);
            proof {
                assert(out@ =~= old(out)@ + enc_action(action@));
            }
        },
        InputAction::KeySequence { keys, key_delay_ms } => {
            push_byte(out, 9);
            push_u64v(out, keys.len() as u64);
            push_keys(out, keys);
            push_opt_u64(out, *key_delay_ms);
            proof {
                assert(out@ =~= old(out)@ + enc_action(action@));
            }
        },
        InputAction::TypeText { text, char_delay_ms } => {
            push_byte(out, 10);
            push_u64v(out, text.as_str().unicode_len() as u64);
            push_chars(out, text.as_str());
            push_opt_u64(out, *char_delay_ms);
            proof {
                assert(out@ =~= old(out)@ + enc_action(action@));
            }
        },
        InputAction::Hotkey { modifiers, key, location } => {
            push_byte(out, 11);
            push_u64v(out, modifiers.len() as u64);
            push_keys(out, modifiers);
            push_key(out, *key);
            push_opt_loc(out, *location);
            proof {
                assert(out@ =~= old(out)@ + enc_action(action@));
            }
        },
        InputAction::Delay { milliseconds } => {
            push_byte(out, 12);
            push_u64v(out, *milliseconds);
            proof {
                assert(out@ =~= old(out)@ + enc_action(action@));
            }
        },
        InputAction::Sequence { actions } => {
            push_byte(out, 13);
            push_u64v(out, actions.len() as u64);
            let ghost mid = out@;
            let n = actions.len();
            for i in 0..n
                invariant
                    n == actions.len(),
                    out@ == mid + enc_actions(crate::enums::action_views(actions@.take(i as int))),
                decreases n - i,
            {
                proof {
                    assert(decreases_to!(*action => *actions));
                    assert(decreases_to!(*actions => actions[i as int]));
                }
                encode_action_into(&actions[i], out);
                proof {
                    assert(actions@.take(i + 1) =~= actions@.take(i as int).push(
                        actions@[i as int],
                    ));
                    lemma_action_views_snoc(actions@.take(i as int), actions@[i as int]);
                    lemma_enc_actions_snoc(
                        crate::enums::action_views(actions@.take(i as int)),
                        crate::enums::action_view(actions@[i as int]),
                    );
                    assert(out@ =~= mid + enc_actions(
                        crate::enums::action_views(actions@.take(i + 1)),
                    ));
                }
            }
            proof {
                assert(actions@.take(n as int) =~= actions@);
                crate::enums::lemma_action_views_len(actions@);
                assert(out@ =~= old(out)@ + enc_action(action@));
            }
        },
        InputAction::Parallel { actions } => {
            push_byte(out, 14);
            push_u64v(out, actions.len() as u64);
            let ghost mid = out@;
            let n = actions.len();
            for i in 0..n
                invariant
                    n == actions.len(),
                    out@ == mid + enc_actions(crate::enums::action_views(actions@.take(i as int))),
                decreases n - i,
            {
                proof {
                    assert(decreases_to!(*action => *actions));
                    assert(decreases_to!(*actions => actions[i as int]));
                }
                encode_action_into(&actions[i], out);
                proof {
                    assert(actions@.take(i + 1) =~= actions@.take(i as int).push(
                        actions@[i as int],
                    ));
                    lemma_action_views_snoc(actions@.take(i as int), actions@[i as int]);
                    lemma_enc_actions_snoc(
                        crate::enums::action_views(actions@.take(i as int)),
                        crate::enums::action_view(actions@[i as int]),
                    );
                    assert(out@ =~= mid + enc_actions(
                        crate::enums::action_views(actions@.take(i + 1)),
                    ));
                }
            }
            proof {
                assert(actions@.take(n as int) =~= actions@);
                crate::enums::lemma_action_views_len(actions@);
                assert(out@ =~= old(out)@ + enc_action(action@));
            }
        },
    }
}

// --- reading the wire form back, executably ------------------------------

/// Relies on char::from_u32: the result is `Some` exactly for Unicode
/// scalar values, and yields the character with that scalar value.
#[verifier::external_body]
fn char_from_u32(v: u32) -> (c: Option<char>)
    ensures
        c is Some <==> is_scalar(v),
        (c is Some ==> c->0 as u32 == v),
{
    char::from_u32(v)
}

fn read_u32(bytes: &Vec<u8>, pos: usize) -> (result: Option<(u32, usize)>)
    requires
        pos <= bytes.len(),
    ensures
        (match result {
            Some(pair) => pair.1 == pos + 4 && pos + 4 <= bytes.len() && pair.0 == u32_at(
                bytes@.skip(pos as int),
                0,
            ),
            None => bytes@.len() - pos < 4,
        }),
{
    if bytes.len() >= 4 && pos <= bytes.len() - 4 {
        let sub = slice_subrange(bytes.as_slice(), pos, pos + 4);
        let v = u32_from_le_bytes(sub);
        proof {
            assert(sub@ =~= bytes@.skip(pos as int).subrange(0, 4));
        }
        Some((v, pos + 4))
    } else {
        None
    }
}

fn read_u64(bytes: &Vec<u8>, pos: usize) -> (result: Option<(u64, usize)>)
    requires
        pos <= bytes.len(),
    ensures
        (match result {
            Some(pair) => pair.1 == pos + 8 && pos + 8 <= bytes.len() && pair.0 == u64_at(
                bytes@.skip(pos as int),
                0,
            ),
            None => bytes@.len() - pos < 8,
        }),
{
    if bytes.len() >= 8 && pos <= bytes.len() - 8 {
        let sub = slice_subrange(bytes.as_slice(), pos, pos + 8);
        let v = u64_from_le_bytes(sub);
        proof {
            assert(sub@ =~= bytes@.skip(pos as int).subrange(0, 8));
        }
        Some((v, pos + 8))
    } else {
        None
    }
}

fn read_i32(bytes: &Vec<u8>, pos: usize) -> (result: Option<(i32, usize)>)
    requires
        pos <= bytes.len(),
    ensures
        (match result {
            Some(pair) => pair.1 == pos + 4 && pos + 4 <= bytes.len() && pair.0 == i32_at(
                bytes@.skip(pos as int),
                0,
            ),
            None => bytes@.len() - pos < 4,
        }),
{
    match read_u32(bytes, pos) {
        Some(pair) => Some((pair.0 as i32, pair.1)),
        None => None,
    }
}

/// Returns the key location a tag byte stands for.
fn loc_from_tag(tag: u8) -> (location: KeyLocation)
    ensures
        location == loc_of_tag(tag),
{
    match tag {
        0u8 => KeyLocation::Standard,
        1u8 => KeyLocation::Left,
        2u8 => KeyLocation::Right,
        _ => KeyLocation::Numpad,
    }
}

/// Returns the mouse button a tag byte stands for.
fn button_from_tag(tag: u8, code: u8) -> (button: MouseButton)
    ensures
        button == button_of_tag(tag, code),
{
    match tag {
        0u8 => MouseButton::Left,
        1u8 => MouseButton::Right,
        2u8 => MouseButton::Middle,
        3u8 => MouseButton::Back,
        4u8 => MouseButton::Forward,
        _ => MouseButton::Other(code),
    }
}

fn read_key(bytes: &Vec<u8>, pos: usize) -> (result: Option<(Key, usize)>)
    requires
        pos <= bytes.len(),
    ensures
        (match result {
            Some(pair) => pair.1 == pos + 5 && pos + 5 <= bytes.len() && dec_key(
                bytes@.skip(pos as int),
            ) == Some((pair.0, 5int)),
            None => dec_key(bytes@.skip(pos as int)) is None,
        }),
{
    if bytes.len() >= 5 && pos <= bytes.len() - 5 {
        let tag = bytes[pos];
        if tag <= 104 {
            let code = match read_u32(bytes, pos + 1) {
                Some(pair) => pair.0,
                None => {
                    proof {
                        assert(false);
                    }
                    0
                },
            };
            proof {
                assert(bytes@.skip(pos as int).subrange(1, 5) =~= bytes@.skip(
                    pos as int + 1,
                ).subrange(0, 4));
            }
            Some((key_from_tag(tag, code), pos + 5))
        } else {
            None
        }
    } else {
        None
    }
}

fn read_opt_loc(bytes: &Vec<u8>, pos: usize) -> (result: Option<(Option<KeyLocation>, usize)>)
    requires
        pos <= bytes.len(),
    ensures
        (match result {
            Some(pair) => pos < pair.1 <= bytes.len() && dec_opt_loc(bytes@.skip(pos as int))
                == Some((pair.0, pair.1 - pos)),
            None => dec_opt_loc(bytes@.skip(pos as int)) is None,
        }),
{
    if pos < bytes.len() {
        let tag = bytes[pos];
        if tag == 0 {
            Some((None, pos + 1))
        } else if tag == 1 && bytes.len() - pos >= 2 {
            let ltag = bytes[pos + 1];
            if ltag <= 3 {
                Some((Some(loc_from_tag(ltag)), pos + 2))
            } else {
                None
            }
        } else {
            None
        }
    } else {
        None
    }
}

fn read_opt_u64(bytes: &Vec<u8>, pos: usize) -> (result: Option<(Option<u64>, usize)>)
    requires
        pos <= bytes.len(),
    ensures
        (match result {
            Some(pair) => pos < pair.1 <= bytes.len() && dec_opt_u64(bytes@.skip(pos as int))
                == Some((pair.0, pair.1 - pos)),
            None => dec_opt_u64(bytes@.skip(pos as int)) is None,
        }),
{
    if pos < bytes.len() {
        let tag = bytes[pos];
        if tag == 0 {
            Some((None, pos + 1))
        } else if tag == 1 {
            match read_u64(bytes, pos + 1) {
                Some(pair) => {
                    proof {
                        assert(bytes@.skip(pos as int).subrange(1, 9) =~= bytes@.skip(
                            pos as int + 1,
                        ).subrange(0, 8));
                    }
                    Some((Some(pair.0), pair.1))
                },
                None => None,
            }
        } else {
            None
        }
    } else {
        None
    }
}

#[verifier::loop_isolation(false)]
fn read_keys(bytes: &Vec<u8>, pos: usize, count: u64) -> (result: Option<(Vec<Key>, usize)>)
    requires
        pos <= bytes.len(),
    ensures
        (match result {
            Some(pair) => pos <= pair.1 <= bytes.len() && dec_keys(
                bytes@.skip(pos as int),
                count as int,
            ) == Some((pair.0@, pair.1 - pos)),
            None => dec_keys(bytes@.skip(pos as int), count as int) is None,
        }),
{
    let mut acc: Vec<Key> = Vec::new();
    let mut cur: usize = pos;
    let mut j: u64 = 0;
    while j < count
        invariant
            j <= count,
            pos <= cur <= bytes.len(),
            acc@.len() == j,
            (dec_keys(bytes@.skip(pos as int), count as int) == (match dec_keys(
                bytes@.skip(cur as int),
                (count - j) as int,
            ) {
                Some(rest) => Some::<(Seq<Key>, int)>(
                    (acc@ + rest.0, (cur - pos) as int + rest.1),
                ),
                None => None::<(Seq<Key>, int)>,
            })),
        decreases count - j,
    {
        match read_key(bytes, cur) {
            Some(pair) => {
                proof {
                    assert(bytes@.skip(cur as int).skip(5) =~= bytes@.skip(cur as int + 5));
                    if dec_keys(bytes@.skip(cur as int + 5), (count - j - 1) as int) is Some {
                        let rest2 = dec_keys(
                            bytes@.skip(cur as int + 5),
                            (count - j - 1) as int,
                        )->0;
                        assert(acc@ + (seq![pair.0] + rest2.0) =~= acc@.push(pair.0) + rest2.0);
                    }
                }
                acc.push(pair.0);
                cur = pair.1;
                j = j + 1;
            },
            None => {
                return None;
            },
        }
    }
    proof {
        assert(acc@ + Seq::<Key>::empty() =~= acc@);
    }
    Some((acc, cur))
}

#[verifier::loop_isolation(false)]
fn read_chars(bytes: &Vec<u8>, pos: usize, count: u64) -> (result: Option<(String, usize)>)
    requires
        pos <= bytes.len(),
    ensures
        (match result {
            Some(pair) => pos <= pair.1 <= bytes.len() && dec_chars(
                bytes@.skip(pos as int),
                count as int,
            ) == Some((pair.0@, pair.1 - pos)),
            None => dec_chars(bytes@.skip(pos as int), count as int) is None,
        }),
{
    let mut acc = String::new();
    let mut cur: usize = pos;
    let mut j: u64 = 0;
    while j < count
        invariant
            j <= count,
            pos <= cur <= bytes.len(),
            (dec_chars(bytes@.skip(pos as int), count as int) == (match dec_chars(
                bytes@.skip(cur as int),
                (count - j) as int,
            ) {
                Some(rest) => Some::<(Seq<char>, int)>(
                    (acc@ + rest.0, (cur - pos) as int + rest.1),
                ),
                None => None::<(Seq<char>, int)>,
            })),
        decreases count - j,
    {
        match read_u32(bytes, cur) {
            Some(pair) => {
                match char_from_u32(pair.0) {
                    Some(c) => {
                        proof {
                            char_u32_cast(c, pair.0);
                            assert(bytes@.skip(cur as int).skip(4) =~= bytes@.skip(
                                cur as int + 4,
                            ));
                            if dec_chars(
                                bytes@.skip(cur as int + 4),
                                (count - j - 1) as int,
                            ) is Some {
                                let rest2 = dec_chars(
                                    bytes@.skip(cur as int + 4),
                                    (count - j - 1) as int,
                                )->0;
                                assert(acc@ + (seq![c] + rest2.0) =~= (acc@ + seq![c]) + rest2.0);
                            }
                        }
                        crate::desc::push_char(&mut acc, c);
                        cur = pair.1;
                        j = j + 1;
                    },
                    None => {
                        return None;
                    },
                }
            },
            None => {
                return None;
            },
        }
    }
    proof {
        assert(acc@ + Seq::<char>::empty() =~= acc@);
    }
    Some((acc, cur))
}

/// Reads one action from its wire form, returning it with the position
/// after it; `None` when the bytes from `pos` on do not begin with an
/// action's wire form.
#[verifier::loop_isolation(false)]
#[verifier::rlimit(100)]
fn parse_action(bytes: &Vec<u8>, pos: usize) -> (result: Option<(InputAction, usize)>)
    requires
        pos <= bytes.len(),
    ensures
        (match result {
            Some(pair) => pos < pair.1 <= bytes.len() && dec_action(bytes@.skip(pos as int))
                == Some((crate::enums::action_view(pair.0), pair.1 - pos)),
            None => dec_action(bytes@.skip(pos as int)) is None,
        }),
    decreases bytes.len() - pos, 0nat,
{
    if pos >= bytes.len() {
        return None;
    }
    let tag = bytes[pos];
    let ghost s = bytes@.skip(pos as int);
    let ghost r = s.skip(1);
    proof {
        assert(r =~= bytes@.skip(pos as int + 1));
    }
    if tag == 0 || tag == 5 {
        if bytes.len() - pos >= 9 {
            let x = match read_i32(bytes, pos + 1) {
                Some(pair) => pair.0,
                None => {
                    proof {
                        assert(false);
                    }
                    0
                },
            };
            let y = match read_i32(bytes, pos + 5) {
                Some(pair) => pair.0,
                None => {
                    proof {
                        assert(false);
                    }
                    0
                },
            };
            proof {
                assert(r.subrange(0, 4) =~= bytes@.skip(pos as int + 1).subrange(0, 4));
                assert(r.subrange(4, 8) =~= bytes@.skip(pos as int + 5).subrange(0, 4));
            }
            if tag == 0 {
                Some((InputAction::MouseMove { x, y }, pos + 9))
            } else {
                Some((InputAction::MouseScroll { delta_x: x, delta_y: y }, pos + 9))
            }
        } else {
            None
        }
    } else if tag == 1 || tag == 2 {
        if bytes.len() - pos >= 11 {
            let btag = bytes[pos + 1];
            if btag <= 5 {
                let button = button_from_tag(btag, bytes[pos + 2]);
                let x = match read_i32(bytes, pos + 3) {
                    Some(pair) => pair.0,
                    None => {
                        proof {
                            assert(false);
                        }
                        0
                    },
                };
                let y = match read_i32(bytes, pos + 7) {
                    Some(pair) => pair.0,
                    None => {
                        proof {
                            assert(false);
                        }
                        0
                    },
                };
                proof {
                    assert(r.subrange(2, 6) =~= bytes@.skip(pos as int + 3).subrange(0, 4));
                    assert(r.subrange(6, 10) =~= bytes@.skip(pos as int + 7).subrange(0, 4));
                }
                if tag == 1 {
                    Some((InputAction::MouseClick { button, x, y }, pos + 11))
                } else {
                    Some((InputAction::MouseDoubleClick { button, x, y }, pos + 11))
                }
            } else {
                None
            }
        } else {
            None
        }
    } else if tag == 3 {
        if bytes.len() - pos >= 19 {
            let btag = bytes[pos + 1];
            if btag <= 5 {
                let button = button_from_tag(btag, bytes[pos + 2]);
                let x = match read_i32(bytes, pos + 3) {
                    Some(pair) => pair.0,
                    None => {
                        proof {
                            assert(false);
                        }
                        0
                    },
                };
                let y = match read_i32(bytes, pos + 7) {
                    Some(pair) => pair.0,
                    None => {
                        proof {
                            assert(false);
                        }
                        0
                    },
                };
                let duration_ms = match read_u64(bytes, pos + 11) {
                    Some(pair) => pair.0,
                    None => {
                        proof {
                            assert(false);
                        }
                        0
                    },
                };
                proof {
                    assert(r.subrange(2, 6) =~= bytes@.skip(pos as int + 3).subrange(0, 4));
                    assert(r.subrange(6, 10) =~= bytes@.skip(pos as int + 7).subrange(0, 4));
                    assert(r.subrange(10, 18) =~= bytes@.skip(pos as int + 11).subrange(0, 8));
                }
                Some((InputAction::MousePress { button, x, y, duration_ms }, pos + 19))
            } else {
                None
            }
        } else {
            None
        }
    } else if tag == 4 {
        if bytes.len() - pos >= 27 {
            let btag = bytes[pos + 1];
            if btag <= 5 {
                let button = button_from_tag(btag, bytes[pos + 2]);
                let start_x = match read_i32(bytes, pos + 3) {
                    Some(pair) => pair.0,
                    None => {
                        proof {
                            assert(false);
                        }
                        0
                    },
                };
                let start_y = match read_i32(bytes, pos + 7) {
                    Some(pair) => pair.0,
                    None => {
                        proof {
                            assert(false);
                        }
                        0
                    },
                };
                let end_x = match read_i32(bytes, pos + 11) {
                    Some(pair) => pair.0,
                    None => {
                        proof {
                            assert(false);
                        }
                        0
                    },
                };
                let end_y = match read_i32(bytes, pos + 15) {
                    Some(pair) => pair.0,
                    None => {
                        proof {
                            assert(false);
                        }
                        0
                    },
                };
                let duration_ms = match read_u64(bytes, pos + 19) {
                    Some(pair) => pair.0,
                    None => {
                        proof {
                            assert(false);
                        }
                        0
                    },
                };
                proof {
                    assert(r.subrange(2, 6) =~= bytes@.skip(pos as int + 3).subrange(0, 4));
                    assert(r.subrange(6, 10) =~= bytes@.skip(pos as int + 7).subrange(0, 4));
                    assert(r.subrange(10, 14) =~= bytes@.skip(pos as int + 11).subrange(0, 4));
                    assert(r.subrange(14, 18) =~= bytes@.skip(pos as int + 15).subrange(0, 4));
                    assert(r.subrange(18, 26) =~= bytes@.skip(pos as int + 19).subrange(0, 8));
                }
                Some(
                    (
                        InputAction::MouseDrag {
                            button,
                            start_x,
                            start_y,
                            end_x,
                            end_y,
                            duration_ms,
                        },
                        pos + 27,
                    ),
                )
            } else {
                None
            }
        } else {
            None
        }
    } else if tag == 6 || tag == 7 || tag == 8 {
        match read_key(bytes, pos + 1) {
            Some(kpair) => {
                match read_opt_loc(bytes, pos + 6) {
                    Some(lpair) => {
                        proof {
                            assert(r.skip(5) =~= bytes@.skip(pos as int + 6));
                        }
                        let key = kpair.0;
                        let location = lpair.0;
                        if tag == 6 {
                            Some((InputAction::KeyPress { key, location }, lpair.1))
                        } else if tag == 7 {
                            Some((InputAction::KeyDown { key, location }, lpair.1))
                        } else {
                            Some((InputAction::KeyUp { key, location }, lpair.1))
                        }
                    },
                    None => {
                        proof {
                            assert(r.skip(5) =~= bytes@.skip(pos as int + 6));
                        }
                        None
                    },
                }
            },
            None => None,
        }
    } else if tag == 9 {
        match read_u64(bytes, pos + 1) {
            Some(npair) => {
                proof {
                    assert(r.subrange(0, 8) =~= bytes@.skip(pos as int + 1).subrange(0, 8));
                    assert(r.skip(8) =~= bytes@.skip(pos as int + 9));
                }
                match read_keys(bytes, pos + 9, npair.0) {
                    Some(kspair) => {
                        proof {
                            assert(r.skip(8 + (kspair.1 - (pos + 9))) =~= bytes@.skip(
                                kspair.1 as int,
                            ));
                        }
                        match read_opt_u64(bytes, kspair.1) {
                            Some(dpair) => Some(
                                (
                                    InputAction::KeySequence {
                                        keys: kspair.0,
                                        key_delay_ms: dpair.0,
                                    },
                                    dpair.1,
                                ),
                            ),
                            None => None,
                        }
                    },
                    None => None,
                }
            },
            None => None,
        }
    } else if tag == 10 {
        match read_u64(bytes, pos + 1) {
            Some(npair) => {
                proof {
                    assert(r.subrange(0, 8) =~= bytes@.skip(pos as int + 1).subrange(0, 8));
                    assert(r.skip(8) =~= bytes@.skip(pos as int + 9));
                }
                match read_chars(bytes, pos + 9, npair.0) {
                    Some(cspair) => {
                        proof {
                            assert(r.skip(8 + (cspair.1 - (pos + 9))) =~= bytes@.skip(
                                cspair.1 as int,
                            ));
                        }
                        match read_opt_u64(bytes, cspair.1) {
                            Some(dpair) => Some(
                                (
                                    InputAction::TypeText {
                                        text: cspair.0,
                                        char_delay_ms: dpair.0,
                                    },
                                    dpair.1,
                                ),
                            ),
                            None => None,
                        }
                    },
                    None => None,
                }
            },
            None => None,
        }
    } else if tag == 11 {
        match read_u64(bytes, pos + 1) {
            Some(npair) => {
                proof {
                    assert(r.subrange(0, 8) =~= bytes@.skip(pos as int + 1).subrange(0, 8));
                    assert(r.skip(8) =~= bytes@.skip(pos as int + 9));
                }
                match read_keys(bytes, pos + 9, npair.0) {
                    Some(kspair) => {
                        proof {
                            assert(r.skip(8 + (kspair.1 - (pos + 9))) =~= bytes@.skip(
                                kspair.1 as int,
                            ));
                        }
                        match read_key(bytes, kspair.1) {
                            Some(kpair) => {
                                proof {
                                    assert(r.skip(13 + (kspair.1 - (pos + 9))) =~= bytes@.skip(
                                        kspair.1 as int + 5,
                                    ));
                                }
                                match read_opt_loc(bytes, kspair.1 + 5) {
                                    Some(lpair) => Some(
                                        (
                                            InputAction::Hotkey {
                                                modifiers: kspair.0,
                                                key: kpair.0,
                                                location: lpair.0,
                                            },
                                            lpair.1,
                                        ),
                                    ),
                                    None => None,
                                }
                            },
                            None => None,
                        }
                    },
                    None => None,
                }
            },
            None => None,
        }
    } else if tag == 12 {
        match read_u64(bytes, pos + 1) {
            Some(pair) => {
                proof {
                    assert(r.subrange(0, 8) =~= bytes@.skip(pos as int + 1).subrange(0, 8));
                }
                Some((InputAction::Delay { milliseconds: pair.0 }, pos + 9))
            },
            None => None,
        }
    } else if tag == 13 || tag == 14 {
        match read_u64(bytes, pos + 1) {
            Some(npair) => {
                proof {
                    assert(r.subrange(0, 8) =~= bytes@.skip(pos as int + 1).subrange(0, 8));
                    assert(r.skip(8) =~= bytes@.skip(pos as int + 9));
                }
                match parse_actions(bytes, pos + 9, npair.0) {
                    Some(aspair) => {
                        if tag == 13 {
                            Some((InputAction::Sequence { actions: aspair.0 }, aspair.1))
                        } else {
                            Some((InputAction::Parallel { actions: aspair.0 }, aspair.1))
                        }
                    },
                    None => None,
                }
            },
            None => None,
        }
    } else {
        None
    }
}

/// Reads `count` actions one after the other.
#[verifier::loop_isolation(false)]
fn parse_actions(bytes: &Vec<u8>, pos: usize, count: u64) -> (result: Option<
    (Vec<InputAction>, usize),
>)
    requires
        pos <= bytes.len(),
    ensures
        (match result {
            Some(pair) => pos <= pair.1 <= bytes.len() && dec_actions(
                bytes@.skip(pos as int),
                count as int,
            ) == Some((crate::enums::action_views(pair.0@), pair.1 - pos)),
            None => dec_actions(bytes@.skip(pos as int), count as int) is None,
        }),
    decreases bytes.len() - pos, count,
{
    let mut acc: Vec<InputAction> = Vec::new();
    let mut cur: usize = pos;
    let mut j: u64 = 0;
    proof {
        assert(crate::enums::action_views(acc@) =~= Seq::<ActionV>::empty());
    }
    while j < count
        invariant
            j <= count,
            pos <= cur <= bytes.len(),
            (dec_actions(bytes@.skip(pos as int), count as int) == (match dec_actions(
                bytes@.skip(cur as int),
                (count - j) as int,
            ) {
                Some(rest) => Some::<(Seq<ActionV>, int)>(
                    (crate::enums::action_views(acc@) + rest.0, (cur - pos) as int + rest.1),
                ),
                None => None::<(Seq<ActionV>, int)>,
            })),
        decreases count - j,
    {
        match parse_action(bytes, cur) {
            Some(pair) => {
                proof {
                    let used = pair.1 - cur;
                    assert(bytes@.skip(cur as int).skip(used as int) =~= bytes@.skip(
                        pair.1 as int,
                    ));
                    lemma_action_views_snoc(acc@, pair.0);
                    if dec_actions(bytes@.skip(pair.1 as int), (count - j - 1) as int) is Some {
                        let rest2 = dec_actions(
                            bytes@.skip(pair.1 as int),
                            (count - j - 1) as int,
                        )->0;
                        assert(crate::enums::action_views(acc@) + (seq![
                            crate::enums::action_view(pair.0),
                        ] + rest2.0) =~= crate::enums::action_views(acc@).push(
                            crate::enums::action_view(pair.0),
                        ) + rest2.0);
                    }
                }
                acc.push(pair.0);
                cur = pair.1;
                j = j + 1;
            },
            None => {
                return None;
            },
        }
    }
    proof {
        assert(crate::enums::action_views(acc@) + Seq::<ActionV>::empty() =~= crate::enums::action_views(
            acc@,
        ));
    }
    Some((acc, cur))
}

/// Reads an action tree back from its complete wire form: `Some` exactly
/// when the bytes are one action's wire form with nothing following it.
pub fn decode_action(bytes: &Vec<u8>) -> (result: Option<InputAction>)
    ensures
        (match result {
            Some(action) => dec_action(bytes@) == Some(
                (crate::enums::action_view(action), bytes@.len() as int),
            ),
            None => dec_action(bytes@) is None || !((dec_action(bytes@)->0).1 == bytes@.len()),
        }),
{
    proof {
        assert(bytes@.skip(0) =~= bytes@);
    }
    match parse_action(bytes, 0) {
        Some(pair) => {
            if pair.1 == bytes.len() {
                Some(pair.0)
            } else {
                None
            }
        },
        None => None,
    }
}

/// Writes an action tree as its wire form.
pub fn encode_action(action: &InputAction) -> (bytes: Vec<u8>)
    ensures
        bytes@ == enc_action(action@),
{
    let mut bytes: Vec<u8> = Vec::new();
    proof {
        assert(Seq::<u8>::empty() + enc_action(action@) =~= enc_action(action@));
    }
    encode_action_into(action, &mut bytes);
    bytes
}

} // verus!
