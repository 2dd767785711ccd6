//! Text building blocks for the audit descriptions the interpreter returns:
//! decimal rendering of the numeric parameters and the display names of
//! logical keys and buttons, each with an exact character-sequence contract.

use vstd::prelude::*;
use vstd::string::StringExecFns;
use crate::enums::{Key, MouseButton};

verus! {

/// The character for one decimal digit.
pub open spec fn digit_char(d: int) -> char {
    if d == 0 {
        '0'
    } else if d == 1 {
        '1'
    } else if d == 2 {
        '2'
    } else if d == 3 {
        '3'
    } else if d == 4 {
        '4'
    } else if d == 5 {
        '5'
    } else if d == 6 {
        '6'
    } else if d == 7 {
        '7'
    } else if d == 8 {
        '8'
    } else {
        '9'
    }
}

/// The decimal rendering of a non-negative number, most significant digit
/// first and without leading zeros (a single `0` for zero).
pub open spec fn dec_digits(n: int) -> Seq<char>
    decreases n,
{
    if n <= 9 {
        seq![digit_char(n)]
    } else {
        dec_digits(n / 10) + seq![digit_char(n % 10)]
    }
}

/// The decimal rendering of a signed number: a leading minus sign for
/// negative values, then the digits of the magnitude.
pub open spec fn dec_signed(n: int) -> Seq<char> {
    if n < 0 {
        seq!['-'] + dec_digits(-n)
    } else {
        dec_digits(n)
    }
}

/// Relies on `String::push`: appends exactly the given character.
#[verifier::external_body]
pub(crate) fn push_char(s: &mut String, c: char)
    ensures
        final(s)@ == old(s)@ + seq![c],
{
    s.push(c);
}

/// Returns the character for one decimal digit.
fn digit_char_of(d: u64) -> (c: char)
    requires
        d <= 9,
    ensures
        c == digit_char(d as int),
{
    match d {
        0 => '0',
        1 => '1',
        2 => '2',
        3 => '3',
        4 => '4',
        5 => '5',
        6 => '6',
        7 => '7',
        8 => '8',
        _ => '9',
    }
}

/// Appends the decimal rendering of `n`.
pub fn append_u64(s: &mut String, n: u64)
    ensures
        final(s)@ == old(s)@ + dec_digits(n as int),
    decreases n,
{
    if n > 9 {
        append_u64(s, n / 10);
        let c = digit_char_of(n % 10);
        push_char(s, c);
    } else {
        let c = digit_char_of(n);
        push_char(s, c);
    }
}

/// Appends the decimal rendering of `n`, with a minus sign when negative.
pub fn append_i32(s: &mut String, n: i32)
    ensures
        final(s)@ == old(s)@ + dec_signed(n as int),
{
    if n < 0 {
        push_char(s, '-');
        let magnitude: u64 = (-(n as i64)) as u64;
        append_u64(s, magnitude);
        proof {
            assert(s@ =~= old(s)@ + dec_signed(n as int));
        }
    } else {
        append_u64(s, n as u64);
    }
}

/// The display name of a logical key, as the descriptions report it: the
/// variant's name, with the opaque code spelled out for `Other`.
pub open spec fn key_name(key: Key) -> Seq<char> {
    match key {
        Key::Backspace => "Backspace"@,
        Key::Tab => "Tab"@,
        Key::Enter => "Enter"@,
        Key::Shift => "Shift"@,
        Key::Ctrl => "Ctrl"@,
        Key::Alt => "Alt"@,
        Key::CapsLock => "CapsLock"@,
        Key::Escape => "Escape"@,
        Key::Space => "Space"@,
        Key::PageUp => "PageUp"@,
        Key::PageDown => "PageDown"@,
        Key::End => "End"@,
        Key::Home => "Home"@,
        Key::ArrowLeft => "ArrowLeft"@,
        Key::ArrowUp => "ArrowUp"@,
        Key::ArrowRight => "ArrowRight"@,
        Key::ArrowDown => "ArrowDown"@,
        Key::PrintScreen => "PrintScreen"@,
        Key::Insert => "Insert"@,
        Key::Delete => "Delete"@,
        Key::Num0 => "Num0"@,
        Key::Num1 => "Num1"@,
        Key::Num2 => "Num2"@,
        Key::Num3 => "Num3"@,
        Key::Num4 => "Num4"@,
        Key::Num5 => "Num5"@,
        Key::Num6 => "Num6"@,
        Key::Num7 => "Num7"@,
        Key::Num8 => "Num8"@,
        Key::Num9 => "Num9"@,
        Key::A => "A"@,
        Key::B => "B"@,
        Key::C => "C"@,
        Key::D => "D"@,
        Key::E => "E"@,
        Key::F => "F"@,
        Key::G => "G"@,
        Key::H => "H"@,
        Key::I => "I"@,
        Key::J => "J"@,
        Key::K => "K"@,
        Key::L => "L"@,
        Key::M => "M"@,
        Key::N => "N"@,
        Key::O => "O"@,
        Key::P => "P"@,
        Key::Q => "Q"@,
        Key::R => "R"@,
        Key::S => "S"@,
        Key::T => "T"@,
        Key::U => "U"@,
        Key::V => "V"@,
        Key::W => "W"@,
        Key::X => "X"@,
        Key::Y => "Y"@,
        Key::Z => "Z"@,
        Key::F1 => "F1"@,
        Key::F2 => "F2"@,
        Key::F3 => "F3"@,
        Key::F4 => "F4"@,
        Key::F5 => "F5"@,
        Key::F6 => "F6"@,
        Key::F7 => "F7"@,
        Key::F8 => "F8"@,
        Key::F9 => "F9"@,
        Key::F10 => "F10"@,
        Key::F11 => "F11"@,
        Key::F12 => "F12"@,
        Key::Semicolon => "Semicolon"@,
        Key::Equal => "Equal"@,
        Key::Comma => "Comma"@,
        Key::Minus => "Minus"@,
        Key::Period => "Period"@,
        Key::Slash => "Slash"@,
        Key::Backquote => "Backquote"@,
        Key::LeftBracket => "LeftBracket"@,
        Key::Backslash => "Backslash"@,
        Key::RightBracket => "RightBracket"@,
        Key::Quote => "Quote"@,
        Key::Numpad0 => "Numpad0"@,
        Key::Numpad1 => "Numpad1"@,
        Key::Numpad2 => "Numpad2"@,
        Key::Numpad3 => "Numpad3"@,
        Key::Numpad4 => "Numpad4"@,
        Key::Numpad5 => "Numpad5"@,
        Key::Numpad6 => "Numpad6"@,
        Key::Numpad7 => "Numpad7"@,
        Key::Numpad8 => "Numpad8"@,
        Key::Numpad9 => "Numpad9"@,
        Key::NumpadMultiply => "NumpadMultiply"@,
        Key::NumpadAdd => "NumpadAdd"@,
        Key::NumpadSubtract => "NumpadSubtract"@,
        Key::NumpadDecimal => "NumpadDecimal"@,
        Key::NumpadDivide => "NumpadDivide"@,
        Key::NumpadEnter => "NumpadEnter"@,
        Key::Meta => "Meta"@,
        Key::ContextMenu => "ContextMenu"@,
        Key::VolumeMute => "VolumeMute"@,
        Key::VolumeDown => "VolumeDown"@,
        Key::VolumeUp => "VolumeUp"@,
        Key::MediaPlayPause => "MediaPlayPause"@,
        Key::MediaStop => "MediaStop"@,
        Key::MediaNextTrack => "MediaNextTrack"@,
        Key::MediaPreviousTrack => "MediaPreviousTrack"@,
        Key::Other(code) => "Other("@ + dec_digits(code as int) + ")"@,
    }
}

/// Returns the name literal of a key other than the opaque escape hatch.
fn key_name_literal(key: Key) -> (name: &'static str)
    requires
        !(key is Other),
    ensures
        name@ == key_name(key),
{
    match key {
        Key::Backspace => "Backspace",
        Key::Tab => "Tab",
        Key::Enter => "Enter",
        Key::Shift => "Shift",
        Key::Ctrl => "Ctrl",
        Key::Alt => "Alt",
        Key::CapsLock => "CapsLock",
        Key::Escape => "Escape",
        Key::Space => "Space",
        Key::PageUp => "PageUp",
        Key::PageDown => "PageDown",
        Key::End => "End",
        Key::Home => "Home",
        Key::ArrowLeft => "ArrowLeft",
        Key::ArrowUp => "ArrowUp",
        Key::ArrowRight => "ArrowRight",
        Key::ArrowDown => "ArrowDown",
        Key::PrintScreen => "PrintScreen",
        Key::Insert => "Insert",
        Key::Delete => "Delete",
        Key::Num0 => "Num0",
        Key::Num1 => "Num1",
        Key::Num2 => "Num2",
        Key::Num3 => "Num3",
        Key::Num4 => "Num4",
        Key::Num5 => "Num5",
        Key::Num6 => "Num6",
        Key::Num7 => "Num7",
        Key::Num8 => "Num8",
        Key::Num9 => "Num9",
        Key::A => "A",
        Key::B => "B",
        Key::C => "C",
        Key::D => "D",
        Key::E => "E",
        Key::F => "F",
        Key::G => "G",
        Key::H => "H",
        Key::I => "I",
        Key::J => "J",
        Key::K => "K",
        Key::L => "L",
        Key::M => "M",
        Key::N => "N",
        Key::O => "O",
        Key::P => "P",
        Key::Q => "Q",
        Key::R => "R",
        Key::S => "S",
        Key::T => "T",
        Key::U => "U",
        Key::V => "V",
        Key::W => "W",
        Key::X => "X",
        Key::Y => "Y",
        Key::Z => "Z",
        Key::F1 => "F1",
        Key::F2 => "F2",
        Key::F3 => "F3",
        Key::F4 => "F4",
        Key::F5 => "F5",
        Key::F6 => "F6",
        Key::F7 => "F7",
        Key::F8 => "F8",
        Key::F9 => "F9",
        Key::F10 => "F10",
        Key::F11 => "F11",
        Key::F12 => "F12",
        Key::Semicolon => "Semicolon",
        Key::Equal => "Equal",
        Key::Comma => "Comma",
        Key::Minus => "Minus",
        Key::Period => "Period",
        Key::Slash => "Slash",
        Key::Backquote => "Backquote",
        Key::LeftBracket => "LeftBracket",
        Key::Backslash => "Backslash",
        Key::RightBracket => "RightBracket",
        Key::Quote => "Quote",
        Key::Numpad0 => "Numpad0",
        Key::Numpad1 => "Numpad1",
        Key::Numpad2 => "Numpad2",
        Key::Numpad3 => "Numpad3",
        Key::Numpad4 => "Numpad4",
        Key::Numpad5 => "Numpad5",
        Key::Numpad6 => "Numpad6",
        Key::Numpad7 => "Numpad7",
        Key::Numpad8 => "Numpad8",
        Key::Numpad9 => "Numpad9",
        Key::NumpadMultiply => "NumpadMultiply",
        Key::NumpadAdd => "NumpadAdd",
        Key::NumpadSubtract => "NumpadSubtract",
        Key::NumpadDecimal => "NumpadDecimal",
        Key::NumpadDivide => "NumpadDivide",
        Key::NumpadEnter => "NumpadEnter",
        Key::Meta => "Meta",
        Key::ContextMenu => "ContextMenu",
        Key::VolumeMute => "VolumeMute",
        Key::VolumeDown => "VolumeDown",
        Key::VolumeUp => "VolumeUp",
        Key::MediaPlayPause => "MediaPlayPause",
        Key::MediaStop => "MediaStop",
        Key::MediaNextTrack => "MediaNextTrack",
        Key::MediaPreviousTrack => "MediaPreviousTrack",
        Key::Other(_) => "",
    }
}

/// Appends the display name of a logical key.
pub fn append_key_name(s: &mut String, key: Key)
    ensures
        final(s)@ == old(s)@ + key_name(key),
{
    match key {
        Key::Other(code) => {
            s.append("Other(");
            append_u64(s, code as u64);
            s.append(")");
            proof {
                assert(s@ =~= old(s)@ + key_name(key));
            }
        },
        _ => {
            let name = key_name_literal(key);
            s.append(name);
        },
    }
}

/// The display name of a logical mouse button, as the descriptions report
/// it: the variant's name, with the opaque code spelled out for `Other`.
pub open spec fn button_name(button: MouseButton) -> Seq<char> {
    match button {
        MouseButton::Left => "Left"@,
        MouseButton::Right => "Right"@,
        MouseButton::Middle => "Middle"@,
        MouseButton::Back => "Back"@,
        MouseButton::Forward => "Forward"@,
        MouseButton::Other(code) => "Other("@ + dec_digits(code as int) + ")"@,
    }
}

/// Appends the display name of a logical mouse button.
pub fn append_button_name(s: &mut String, button: MouseButton)
    ensures
        final(s)@ == old(s)@ + button_name(button),
{
    match button {
        MouseButton::Left => s.append("Left"),
        MouseButton::Right => s.append("Right"),
        MouseButton::Middle => s.append("Middle"),
        MouseButton::Back => s.append("Back"),
        MouseButton::Forward => s.append("Forward"),
        MouseButton::Other(code) => {
            s.append("Other(");
            append_u64(s, code as u64);
            s.append(")");
            proof {
                assert(s@ =~= old(s)@ + button_name(button));
            }
        },
    }
}

/// The display name of a list of keys: the names bracketed and separated by
/// a comma and a space, considering the first `n` keys.
pub open spec fn key_list_body(keys: Seq<Key>, n: int) -> Seq<char>
    decreases n,
{
    if n <= 0 {
        seq![]
    } else if n == 1 {
        key_name(keys[0])
    } else {
        key_list_body(keys, n - 1) + ", "@ + key_name(keys[n - 1])
    }
}

/// The display name of a list of keys, brackets included.
pub open spec fn key_list_name(keys: Seq<Key>) -> Seq<char> {
    "["@ + key_list_body(keys, keys.len() as int) + "]"@
}

/// Appends the display name of a list of keys.
pub fn append_key_list(s: &mut String, keys: &Vec<Key>)
    ensures
        final(s)@ == old(s)@ + key_list_name(keys@),
{
    s.append("[");
    proof {
        assert(s@ =~= old(s)@ + "["@ + key_list_body(keys@, 0));
    }
    let n = keys.len();
    for i in 0..n
        invariant
            n == keys.len(),
            s@ == old(s)@ + "["@ + key_list_body(keys@, i as int),
    {
        if i > 0 {
            s.append(", ");
        }
        append_key_name(s, keys[i]);
        proof {
            assert(s@ =~= old(s)@ + "["@ + key_list_body(keys@, i + 1));
        }
    }
    s.append("]");
    proof {
        assert(s@ =~= old(s)@ + key_list_name(keys@));
    }
}

} // verus!
