//! The keyboard actuator: sequences key-down/key-up pairs, hotkey
//! modifier hold/release ordering and raw text typing, as injection events
//! appended to a plan. A key whose logical identifier does not resolve to a
//! physical code is a silent no-op: it contributes no event.

use vstd::prelude::*;
use crate::enums::{Key, KeyLocation};
use crate::events::{EventV, InjectionEvent, PressDirection};
use crate::keymap::{spec_map_key, KeyMapper};

verus! {

/// The plan segment for pressing (or releasing) one logical key: one key
/// event when the key resolves to a physical code, nothing when it does not.
pub open spec fn key_edge_events(key: Key, location: Option<KeyLocation>, direction: PressDirection) -> Seq<EventV> {
    match spec_map_key(key, location) {
        Some(code) => seq![EventV::Key { key: code, direction }],
        None => seq![],
    }
}

/// The plan segment for a full press of one logical key: down then up, with
/// no delay between them.
pub open spec fn press_key_events(key: Key, location: Option<KeyLocation>) -> Seq<EventV> {
    key_edge_events(key, location, PressDirection::Press) + key_edge_events(
        key,
        location,
        PressDirection::Release,
    )
}

/// The plan segment holding down the first `n` modifiers of `modifiers`, in
/// caller order, each at its standard location.
pub open spec fn modifier_downs(modifiers: Seq<Key>, n: int) -> Seq<EventV>
    decreases n,
{
    if n <= 0 {
        seq![]
    } else {
        modifier_downs(modifiers, n - 1) + key_edge_events(
            modifiers[n - 1],
            None,
            PressDirection::Press,
        )
    }
}

/// The plan segment releasing the last `n` modifiers of `modifiers` in
/// reverse (LIFO) order: the modifier pressed last is released first.
pub open spec fn modifier_ups_reversed(modifiers: Seq<Key>, n: int) -> Seq<EventV>
    decreases n,
{
    if n <= 0 || n > modifiers.len() {
        seq![]
    } else {
        modifier_ups_reversed(modifiers, n - 1) + key_edge_events(
            modifiers[modifiers.len() - n],
            None,
            PressDirection::Release,
        )
    }
}

/// The plan segment for a hotkey: every modifier held down in caller order,
/// the main key pressed and released, then the modifiers released in reverse
/// order, so releasing mirrors the physical nesting of the presses.
pub open spec fn hotkey_events(modifiers: Seq<Key>, key: Key, location: Option<KeyLocation>) -> Seq<
    EventV,
> {
    modifier_downs(modifiers, modifiers.len() as int) + press_key_events(key, location)
        + modifier_ups_reversed(modifiers, modifiers.len() as int)
}

/// What a hotkey plan holds when the main key and every modifier resolve to
/// a physical code, event by event: first every modifier pressed in caller
/// order, then the main key pressed and released, then every modifier
/// released in the reverse of the order it was pressed in.
pub proof fn lemma_hotkey_plan_shape(modifiers: Seq<Key>, key: Key, location: Option<KeyLocation>)
    requires
        forall|i: int|
            0 <= i < modifiers.len() ==> (#[trigger] spec_map_key(modifiers[i], None)) is Some,
        spec_map_key(key, location) is Some,
    ensures
        hotkey_events(modifiers, key, location).len() == 2 * modifiers.len() + 2,
        (forall|i: int|
            0 <= i < modifiers.len() ==> #[trigger] hotkey_events(modifiers, key, location)[i] == (
            EventV::Key {
                key: spec_map_key(modifiers[i], None)->0,
                direction: PressDirection::Press,
            })),
        hotkey_events(modifiers, key, location)[modifiers.len() as int] == (EventV::Key {
            key: spec_map_key(key, location)->0,
            direction: PressDirection::Press,
        }),
        hotkey_events(modifiers, key, location)[modifiers.len() as int + 1] == (EventV::Key {
            key: spec_map_key(key, location)->0,
            direction: PressDirection::Release,
        }),
        (forall|i: int|
            0 <= i < modifiers.len() ==> #[trigger] hotkey_events(modifiers, key, location)[
                modifiers.len() + 2 + i] == (EventV::Key {
                key: spec_map_key(modifiers[modifiers.len() - 1 - i], None)->0,
                direction: PressDirection::Release,
            })),
{
    lemma_modifier_downs_shape(modifiers, modifiers.len() as int);
    lemma_modifier_ups_shape(modifiers, modifiers.len() as int);
}

/// The first `n` modifier presses have one event per modifier, in caller
/// order, when each of those modifiers resolves to a physical code.
proof fn lemma_modifier_downs_shape(modifiers: Seq<Key>, n: int)
    requires
        0 <= n <= modifiers.len(),
        forall|i: int| 0 <= i < n ==> (#[trigger] spec_map_key(modifiers[i], None)) is Some,
    ensures
        modifier_downs(modifiers, n).len() == n,
        (forall|i: int|
            0 <= i < n ==> #[trigger] modifier_downs(modifiers, n)[i] == (EventV::Key {
                key: spec_map_key(modifiers[i], None)->0,
                direction: PressDirection::Press,
            })),
    decreases n,
{
    if n > 0 {
        lemma_modifier_downs_shape(modifiers, n - 1);
    }
}

/// The releases of the last `n` modifiers have one event per modifier, in
/// reverse order, when each of those modifiers resolves to a physical code.
proof fn lemma_modifier_ups_shape(modifiers: Seq<Key>, n: int)
    requires
        0 <= n <= modifiers.len(),
        forall|i: int|
            modifiers.len() - n <= i < modifiers.len() ==> (#[trigger] spec_map_key(
                modifiers[i],
                None,
            )) is Some,
    ensures
        modifier_ups_reversed(modifiers, n).len() == n,
        (forall|i: int|
            0 <= i < n ==> #[trigger] modifier_ups_reversed(modifiers, n)[i] == (EventV::Key {
                key: spec_map_key(modifiers[modifiers.len() - 1 - i], None)->0,
                direction: PressDirection::Release,
            })),
    decreases n,
{
    if n > 0 {
        lemma_modifier_ups_shape(modifiers, n - 1);
    }
}

/// Appends one event to a plan.
pub(crate) fn push_event(events: &mut Vec<InjectionEvent>, event: InjectionEvent)
    ensures
        final(events).deep_view() == old(events).deep_view() + seq![event@],
{
    let ghost before = events.deep_view();
    let ghost pushed = event@;
    events.push(event);
    proof {
        assert(events.deep_view() =~= before + seq![pushed]);
    }
}

/// Sequences keyboard gestures into a plan of injection events, resolving
/// each logical key through the [`KeyMapper`].
#[derive(Clone)]
pub struct KeyboardSimulator {
    key_mapper: KeyMapper,
}

impl KeyboardSimulator {
    pub fn new() -> (simulator: KeyboardSimulator) {
        KeyboardSimulator { key_mapper: KeyMapper::new() }
    }

    /// Appends a press of the key (without release); a silent no-op when the
    /// key resolves to no physical code.
    pub fn key_down(
        &self,
        events: &mut Vec<InjectionEvent>,
        key: Key,
        location: Option<KeyLocation>,
    )
        ensures
            final(events).deep_view() == old(events).deep_view() + key_edge_events(
                key,
                location,
                PressDirection::Press,
            ),
    {
        if let Some(code) = self.key_mapper.map_key(key, location) {
            push_event(events, InjectionEvent::Key { key: code, direction: PressDirection::Press });
        } else {
            proof {
                assert(events.deep_view() =~= events.deep_view() + seq![]);
            }
        }
    }

    /// Appends a release of the key; a silent no-op when the key resolves to
    /// no physical code.
    pub fn key_up(&self, events: &mut Vec<InjectionEvent>, key: Key, location: Option<KeyLocation>)
        ensures
            final(events).deep_view() == old(events).deep_view() + key_edge_events(
                key,
                location,
                PressDirection::Release,
            ),
    {
        if let Some(code) = self.key_mapper.map_key(key, location) {
            push_event(
                events,
                InjectionEvent::Key { key: code, direction: PressDirection::Release },
            );
        } else {
            proof {
                assert(events.deep_view() =~= events.deep_view() + seq![]);
            }
        }
    }

    /// Appends a full press of the key: down then up, with no smoothing or
    /// delay between them.
    pub fn press_key(
        &self,
        events: &mut Vec<InjectionEvent>,
        key: Key,
        location: Option<KeyLocation>,
    )
        ensures
            final(events).deep_view() == old(events).deep_view() + press_key_events(key, location),
    {
        self.key_down(events, key, location);
        self.key_up(events, key, location);
        proof {
            assert(events.deep_view() =~= old(events).deep_view() + press_key_events(
                key,
                location,
            ));
        }
    }

    /// Appends a single injection of the whole string at once.
    pub fn type_text(&self, events: &mut Vec<InjectionEvent>, text: &str)
        ensures
            final(events).deep_view() == old(events).deep_view() + seq![
                EventV::Text { text: text@ },
            ],
    {
        push_event(events, InjectionEvent::Text { text: text.to_owned() });
    }

    /// Appends a hotkey combination: every modifier held down in caller
    /// order, the main key pressed and released, then the modifiers released
    /// in reverse (LIFO) order.
    pub fn hotkey(
        &self,
        events: &mut Vec<InjectionEvent>,
        modifiers: &Vec<Key>,
        key: Key,
        location: Option<KeyLocation>,
    )
        ensures
            final(events).deep_view() == old(events).deep_view() + hotkey_events(
                modifiers@,
                key,
                location,
            ),
    {
        let ghost base = events.deep_view();
        let n = modifiers.len();
        for i in 0..n
            invariant
                n == modifiers.len(),
                events.deep_view() == base + modifier_downs(modifiers@, i as int),
        {
            self.key_down(events, modifiers[i], None);
        }

        self.press_key(events, key, location);
        let ghost mid = base + modifier_downs(modifiers@, n as int) + press_key_events(
            key,
            location,
        );
        proof {
            assert(events.deep_view() =~= mid);
        }

        for i in 0..n
            invariant
                n == modifiers.len(),
                events.deep_view() == mid + modifier_ups_reversed(modifiers@, i as int),
        {
            self.key_up(events, modifiers[n - 1 - i], None);
            proof {
                assert(modifiers@[modifiers@.len() - (i + 1)] == modifiers@[n - 1 - i as int]);
            }
        }
        proof {
            assert(events.deep_view() =~= old(events).deep_view() + hotkey_events(
                modifiers@,
                key,
                location,
            ));
        }
    }
}

} // verus!
