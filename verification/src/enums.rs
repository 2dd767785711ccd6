//! The declarative data model: logical mouse buttons, logical keys, key
//! locations, and the recursive `InputAction` tree that the interpreter
//! evaluates.

use vstd::prelude::*;

verus! {

/// A platform-independent mouse button identifier. `Other` is an escape hatch
/// carrying an opaque numeric code for buttons outside the enumeration.
#[derive(Debug, Clone, Copy, PartialEq, Eq, Hash, Structural)]
pub enum MouseButton {
    Left,
    Right,
    Middle,
    /// Browser "back" button.
    Back,
    /// Browser "forward" button.
    Forward,
    Other(u8),
}

/// Disambiguates physically distinct keys that share a logical identity,
/// such as the left and right Shift keys. `Standard` means the location is
/// irrelevant or unknown.
#[derive(Debug, Clone, Copy, PartialEq, Eq, Structural)]
pub enum KeyLocation {
    Standard,
    Left,
    Right,
    Numpad,
}

/// A platform-independent keyboard key identifier. `Other` is an escape hatch
/// carrying an opaque numeric code for keys outside the enumeration.
#[derive(Debug, Clone, Copy, PartialEq, Eq, Hash, Structural)]
pub enum Key {
    Backspace,
    Tab,
    Enter,
    Shift,
    Ctrl,
    Alt,
    CapsLock,
    Escape,
    Space,
    PageUp,
    PageDown,
    End,
    Home,
    ArrowLeft,
    ArrowUp,
    ArrowRight,
    ArrowDown,
    PrintScreen,
    Insert,
    Delete,
    Num0,
    Num1,
    Num2,
    Num3,
    Num4,
    Num5,
    Num6,
    Num7,
    Num8,
    Num9,
    A,
    B,
    C,
    D,
    E,
    F,
    G,
    H,
    I,
    J,
    K,
    L,
    M,
    N,
    O,
    P,
    Q,
    R,
    S,
    T,
    U,
    V,
    W,
    X,
    Y,
    Z,
    F1,
    F2,
    F3,
    F4,
    F5,
    F6,
    F7,
    F8,
    F9,
    F10,
    F11,
    F12,
    Semicolon,
    Equal,
    Comma,
    Minus,
    Period,
    Slash,
    Backquote,
    LeftBracket,
    Backslash,
    RightBracket,
    Quote,
    Numpad0,
    Numpad1,
    Numpad2,
    Numpad3,
    Numpad4,
    Numpad5,
    Numpad6,
    Numpad7,
    Numpad8,
    Numpad9,
    NumpadMultiply,
    NumpadAdd,
    NumpadSubtract,
    NumpadDecimal,
    NumpadDivide,
    NumpadEnter,
    /// The Windows or Command key.
    Meta,
    ContextMenu,
    VolumeMute,
    VolumeDown,
    VolumeUp,
    MediaPlayPause,
    MediaStop,
    MediaNextTrack,
    MediaPreviousTrack,
    Other(u32),
}

/// A single declarative input instruction: either a primitive gesture or a
/// composite (`Sequence`, `Parallel`) holding an ordered list of children.
/// Trees are finite by construction and never mutated after construction.
#[derive(Debug)]
pub enum InputAction {
    MouseMove {
        x: i32,
        y: i32,
    },
    MouseClick {
        button: MouseButton,
        x: i32,
        y: i32,
    },
    MouseDoubleClick {
        button: MouseButton,
        x: i32,
        y: i32,
    },
    MousePress {
        button: MouseButton,
        x: i32,
        y: i32,
        duration_ms: u64,
    },
    MouseDrag {
        button: MouseButton,
        start_x: i32,
        start_y: i32,
        end_x: i32,
        end_y: i32,
        duration_ms: u64,
    },
    MouseScroll {
        delta_x: i32,
        delta_y: i32,
    },
    KeyPress {
        key: Key,
        location: Option<KeyLocation>,
    },
    KeyDown {
        key: Key,
        location: Option<KeyLocation>,
    },
    KeyUp {
        key: Key,
        location: Option<KeyLocation>,
    },
    KeySequence {
        keys: Vec<Key>,
        key_delay_ms: Option<u64>,
    },
    TypeText {
        text: String,
        char_delay_ms: Option<u64>,
    },
    Hotkey {
        modifiers: Vec<Key>,
        key: Key,
        location: Option<KeyLocation>,
    },
    Delay {
        milliseconds: u64,
    },
    Sequence {
        actions: Vec<InputAction>,
    },
    Parallel {
        actions: Vec<InputAction>,
    },
}

/// The mathematical view of an [`InputAction`]: the same tree with key
/// lists, text and children as sequences. Contracts that compare whole
/// actions, such as the transport round-trip law, speak of this view.
#[verifier::ext_equal]
pub enum ActionV {
    MouseMove { x: i32, y: i32 },
    MouseClick { button: MouseButton, x: i32, y: i32 },
    MouseDoubleClick { button: MouseButton, x: i32, y: i32 },
    MousePress { button: MouseButton, x: i32, y: i32, duration_ms: u64 },
    MouseDrag {
        button: MouseButton,
        start_x: i32,
        start_y: i32,
        end_x: i32,
        end_y: i32,
        duration_ms: u64,
    },
    MouseScroll { delta_x: i32, delta_y: i32 },
    KeyPress { key: Key, location: Option<KeyLocation> },
    KeyDown { key: Key, location: Option<KeyLocation> },
    KeyUp { key: Key, location: Option<KeyLocation> },
    KeySequence { keys: Seq<Key>, key_delay_ms: Option<u64> },
    TypeText { text: Seq<char>, char_delay_ms: Option<u64> },
    Hotkey { modifiers: Seq<Key>, key: Key, location: Option<KeyLocation> },
    Delay { milliseconds: u64 },
    Sequence { actions: Seq<ActionV> },
    Parallel { actions: Seq<ActionV> },
}

impl View for InputAction {
    type V = ActionV;

    open spec fn view(&self) -> ActionV {
        action_view(*self)
    }
}

/// The view of one action.
pub open spec fn action_view(action: InputAction) -> ActionV
    decreases action,
{
    match action {
            InputAction::MouseMove { x, y } => ActionV::MouseMove { x: x, y: y },
            InputAction::MouseClick { button, x, y } => ActionV::MouseClick {
                button: button,
                x: x,
                y: y,
            },
            InputAction::MouseDoubleClick { button, x, y } => ActionV::MouseDoubleClick {
                button: button,
                x: x,
                y: y,
            },
            InputAction::MousePress { button, x, y, duration_ms } => ActionV::MousePress {
                button: button,
                x: x,
                y: y,
                duration_ms: duration_ms,
            },
            InputAction::MouseDrag {
                button,
                start_x,
                start_y,
                end_x,
                end_y,
                duration_ms,
            } => ActionV::MouseDrag {
                button: button,
                start_x: start_x,
                start_y: start_y,
                end_x: end_x,
                end_y: end_y,
                duration_ms: duration_ms,
            },
            InputAction::MouseScroll { delta_x, delta_y } => ActionV::MouseScroll {
                delta_x: delta_x,
                delta_y: delta_y,
            },
            InputAction::KeyPress { key, location } => ActionV::KeyPress {
                key: key,
                location: location,
            },
            InputAction::KeyDown { key, location } => ActionV::KeyDown {
                key: key,
                location: location,
            },
            InputAction::KeyUp { key, location } => ActionV::KeyUp {
                key: key,
                location: location,
            },
            InputAction::KeySequence { keys, key_delay_ms } => ActionV::KeySequence {
                keys: keys@,
                key_delay_ms: key_delay_ms,
            },
            InputAction::TypeText { text, char_delay_ms } => ActionV::TypeText {
                text: text@,
                char_delay_ms: char_delay_ms,
            },
            InputAction::Hotkey { modifiers, key, location } => ActionV::Hotkey {
                modifiers: modifiers@,
                key: key,
                location: location,
            },
            InputAction::Delay { milliseconds } => ActionV::Delay { milliseconds: milliseconds },
            InputAction::Sequence { actions } => ActionV::Sequence {
                actions: action_views(actions@),
            },
            InputAction::Parallel { actions } => ActionV::Parallel {
                actions: action_views(actions@),
        },
    }
}

/// The views of a list of actions, in order.
pub open spec fn action_views(actions: Seq<InputAction>) -> Seq<ActionV>
    decreases actions,
{
    if actions.len() == 0 {
        seq![]
    } else {
        action_views(actions.drop_last()).push(action_view(actions.last()))
    }
}

/// `action_views` keeps the length.
pub proof fn lemma_action_views_len(actions: Seq<InputAction>)
    ensures
        action_views(actions).len() == actions.len(),
    decreases actions.len(),
{
    if actions.len() > 0 {
        lemma_action_views_len(actions.drop_last());
    }
}

} // verus!
