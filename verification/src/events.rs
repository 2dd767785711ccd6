//! The injection plan: the primitive events the opaque OS injection
//! capability understands. Evaluating an action tree produces an ordered
//! `Vec<InjectionEvent>`; the transport layer performs each event in order
//! (injecting input or sleeping) while it holds the exclusive injection
//! resource. Contracts speak of plans through [`EventV`], the mathematical
//! view of an event.

use vstd::prelude::*;

verus! {

/// Whether a key or button event is a press or a release.
#[derive(Debug, Clone, Copy, PartialEq, Eq, Structural)]
pub enum PressDirection {
    Press,
    Release,
}

/// The axis of a scroll injection.
#[derive(Debug, Clone, Copy, PartialEq, Eq, Structural)]
pub enum ScrollAxis {
    Vertical,
    Horizontal,
}

/// A physical key code: what the OS injection primitive expects for a key
/// event. Side-specific modifier codes are distinct from the generic ones.
/// `Unicode` carries a key reached by its character value.
#[derive(Debug, Clone, Copy, PartialEq, Eq, Structural)]
pub enum PhysicalKey {
    Backspace,
    Tab,
    Return,
    Shift,
    LShift,
    RShift,
    Control,
    LControl,
    RControl,
    Alt,
    CapsLock,
    Escape,
    Space,
    PageUp,
    PageDown,
    End,
    Home,
    LeftArrow,
    UpArrow,
    RightArrow,
    DownArrow,
    Print,
    Insert,
    Delete,
    F1,
    F2,
    F3,
    F4,
    F5,
    F6,
    F7,
    F8,
    F9,
    F10,
    F11,
    F12,
    Meta,
    Unicode(char),
}

/// A physical mouse button code: what the OS injection primitive expects for
/// a button event.
#[derive(Debug, Clone, Copy, PartialEq, Eq, Structural)]
pub enum PhysicalButton {
    Left,
    Right,
    Middle,
    Back,
    Forward,
}

/// One primitive instruction to the OS injection capability, or a timed
/// suspension between instructions.
#[derive(Debug, Clone, PartialEq)]
pub enum InjectionEvent {
    /// Absolute pointer repositioning.
    PointerMove { x: i32, y: i32 },
    /// Press or release of a physical mouse button.
    Button { button: PhysicalButton, direction: PressDirection },
    /// Press or release of a physical key.
    Key { key: PhysicalKey, direction: PressDirection },
    /// Injection of a whole string of text at once.
    Text { text: String },
    /// A scroll of `delta` ticks along one axis.
    Scroll { axis: ScrollAxis, delta: i32 },
    /// Cooperative suspension for `milliseconds` before the next event.
    Sleep { milliseconds: u64 },
}

/// The mathematical view of an [`InjectionEvent`]: the same structure with
/// the text as a sequence of characters.
#[verifier::ext_equal]
pub enum EventV {
    PointerMove { x: int, y: int },
    Button { button: PhysicalButton, direction: PressDirection },
    Key { key: PhysicalKey, direction: PressDirection },
    Text { text: Seq<char> },
    Scroll { axis: ScrollAxis, delta: int },
    Sleep { milliseconds: int },
}

impl View for InjectionEvent {
    type V = EventV;

    open spec fn view(&self) -> EventV {
        match self {
            InjectionEvent::PointerMove { x, y } => EventV::PointerMove { x: *x as int, y: *y as int },
            InjectionEvent::Button { button, direction } => EventV::Button {
                button: *button,
                direction: *direction,
            },
            InjectionEvent::Key { key, direction } => EventV::Key { key: *key, direction: *direction },
            InjectionEvent::Text { text } => EventV::Text { text: text@ },
            InjectionEvent::Scroll { axis, delta } => EventV::Scroll {
                axis: *axis,
                delta: *delta as int,
            },
            InjectionEvent::Sleep { milliseconds } => EventV::Sleep {
                milliseconds: *milliseconds as int,
            },
        }
    }
}

impl DeepView for InjectionEvent {
    type V = EventV;

    open spec fn deep_view(&self) -> EventV {
        self.view()
    }
}

/// The total time, in milliseconds, that performing a plan suspends for: the
/// sum of its `Sleep` events. Performing the plan takes at least this long.
pub open spec fn total_sleep_ms(plan: Seq<EventV>) -> int
    decreases plan.len(),
{
    if plan.len() == 0 {
        0
    } else {
        total_sleep_ms(plan.drop_last()) + match plan.last() {
            EventV::Sleep { milliseconds } => milliseconds,
            _ => 0,
        }
    }
}

/// Summing the suspensions of two plans one after the other is the same as
/// summing them together: `total_sleep_ms` distributes over concatenation.
pub proof fn lemma_total_sleep_ms_concat(a: Seq<EventV>, b: Seq<EventV>)
    ensures
        total_sleep_ms(a + b) == total_sleep_ms(a) + total_sleep_ms(b),
    decreases b.len(),
{
    if b.len() == 0 {
        assert(a + b =~= a);
    } else {
        lemma_total_sleep_ms_concat(a, b.drop_last());
        assert((a + b).drop_last() =~= a + b.drop_last());
        assert((a + b).last() == b.last());
    }
}

} // verus!
