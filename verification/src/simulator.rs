//! The action interpreter: a recursive evaluator that walks an
//! [`InputAction`] tree, appends the injection events of every primitive
//! gesture to the plan in depth-first, left-to-right order, and returns the
//! audit description of what was performed. Composite `Sequence` actions
//! evaluate their children strictly in order and aggregate the children's
//! descriptions into a numbered multi-line report; `Parallel` is an
//! acknowledged gap that performs no actuation and returns a placeholder
//! description.

use vstd::prelude::*;
use vstd::string::StringExecFns;
use crate::desc::{
    append_button_name, append_i32, append_key_list, append_key_name, append_u64, button_name,
    dec_digits, dec_signed, key_list_name, key_name,
};
use crate::enums::{InputAction, Key};
use crate::events::{total_sleep_ms, EventV, InjectionEvent, PhysicalKey, PressDirection};
use crate::keyboard::{
    hotkey_events, key_edge_events, press_key_events, push_event, KeyboardSimulator,
};
use crate::mouse::{
    click_events, double_click_events, drag_events, press_events, scroll_events, MouseSimulator,
};

verus! {

broadcast use vstd::string::axiom_spec_iter;

/// The plan segment of a key sequence, considering its first `n` keys: each
/// key pressed and released at its standard location, with a suspension of
/// the requested delay after every key but the last.
pub open spec fn key_sequence_events(keys: Seq<Key>, key_delay_ms: Option<u64>, n: int) -> Seq<
    EventV,
>
    decreases n,
{
    if n <= 0 {
        seq![]
    } else {
        key_sequence_events(keys, key_delay_ms, n - 1) + press_key_events(keys[n - 1], None)
            + match key_delay_ms {
            Some(delay) => if n < keys.len() {
                seq![EventV::Sleep { milliseconds: delay as int }]
            } else {
                seq![]
            },
            None => seq![],
        }
    }
}

/// The press of one character as a unicode key.
pub open spec fn unicode_press_event(c: char) -> EventV {
    EventV::Key { key: PhysicalKey::Unicode(c), direction: PressDirection::Press }
}

/// The plan segment of per-character typing, considering the first `n`
/// characters: each character pressed as a unicode key (without an explicit
/// release), with a suspension of the per-character delay between
/// consecutive characters only — none after the last.
pub open spec fn typed_chars_events(text: Seq<char>, char_delay_ms: int, n: int) -> Seq<EventV>
    decreases n,
{
    if n <= 0 {
        seq![]
    } else if n == 1 {
        seq![unicode_press_event(text[0])]
    } else {
        typed_chars_events(text, char_delay_ms, n - 1) + seq![
            EventV::Sleep { milliseconds: char_delay_ms },
            unicode_press_event(text[n - 1]),
        ]
    }
}

/// The plan of one action: every injection event it performs, in order.
/// `Sequence` concatenates its children's plans in order; `Parallel`
/// contributes nothing (the acknowledged gap).
pub open spec fn action_events(action: InputAction) -> Seq<EventV>
    decreases action,
{
    match action {
        InputAction::MouseMove { x, y } => seq![
            EventV::PointerMove { x: x as int, y: y as int },
        ],
        InputAction::MouseClick { button, x, y } => click_events(button, x as int, y as int),
        InputAction::MouseDoubleClick { button, x, y } => double_click_events(
            button,
            x as int,
            y as int,
        ),
        InputAction::MousePress { button, x, y, duration_ms } => press_events(
            button,
            x as int,
            y as int,
            duration_ms as int,
        ),
        InputAction::MouseDrag { button, start_x, start_y, end_x, end_y, duration_ms } => drag_events(
            button,
            start_x as int,
            start_y as int,
            end_x as int,
            end_y as int,
            duration_ms as int,
        ),
        InputAction::MouseScroll { delta_x, delta_y } => scroll_events(
            delta_x as int,
            delta_y as int,
        ),
        InputAction::KeyPress { key, location } => press_key_events(key, location),
        InputAction::KeyDown { key, location } => key_edge_events(
            key,
            location,
            PressDirection::Press,
        ),
        InputAction::KeyUp { key, location } => key_edge_events(
            key,
            location,
            PressDirection::Release,
        ),
        InputAction::KeySequence { keys, key_delay_ms } => key_sequence_events(
            keys@,
            key_delay_ms,
            keys@.len() as int,
        ),
        InputAction::TypeText { text, char_delay_ms } => match char_delay_ms {
            Some(delay) => typed_chars_events(text@, delay as int, text@.len() as int),
            None => seq![EventV::Text { text: text@ }],
        },
        InputAction::Hotkey { modifiers, key, location } => hotkey_events(
            modifiers@,
            key,
            location,
        ),
        InputAction::Delay { milliseconds } => seq![
            EventV::Sleep { milliseconds: milliseconds as int },
        ],
        InputAction::Sequence { actions } => actions_events(actions@),
        InputAction::Parallel { actions } => seq![],
    }
}

/// The concatenated plans of a list of actions, in order.
pub open spec fn actions_events(actions: Seq<InputAction>) -> Seq<EventV>
    decreases actions,
{
    if actions.len() == 0 {
        seq![]
    } else {
        actions_events(actions.drop_last()) + action_events(actions.last())
    }
}

/// The audit description of one action: what was performed, with the
/// resolved parameters spelled out.
pub open spec fn describe(action: InputAction) -> Seq<char>
    decreases action, 0int,
{
    match action {
        InputAction::MouseMove { x, y } => "Moved to ("@ + dec_signed(x as int) + ", "@
            + dec_signed(y as int) + ")"@,
        InputAction::MouseClick { button, x, y } => "Clicked "@ + button_name(button) + " at ("@
            + dec_signed(x as int) + ", "@ + dec_signed(y as int) + ")"@,
        InputAction::MouseDoubleClick { button, x, y } => "Double clicked "@ + button_name(button)
            + " at ("@ + dec_signed(x as int) + ", "@ + dec_signed(y as int) + ")"@,
        InputAction::MousePress { button, x, y, duration_ms } => "Pressed "@ + button_name(button)
            + " at ("@ + dec_signed(x as int) + ", "@ + dec_signed(y as int) + ") for "@
            + dec_digits(duration_ms as int) + "ms"@,
        InputAction::MouseDrag { button, start_x, start_y, end_x, end_y, duration_ms } => "Dragged "@
            + button_name(button) + " from ("@ + dec_signed(start_x as int) + ", "@ + dec_signed(
            start_y as int,
        ) + ") to ("@ + dec_signed(end_x as int) + ", "@ + dec_signed(end_y as int) + ") over "@
            + dec_digits(duration_ms as int) + "ms"@,
        InputAction::MouseScroll { delta_x, delta_y } => "Scrolled: horizontal "@ + dec_signed(
            delta_x as int,
        ) + ", vertical "@ + dec_signed(delta_y as int),
        InputAction::KeyPress { key, location } => "Pressed key "@ + key_name(key),
        InputAction::KeyDown { key, location } => "Key down: "@ + key_name(key),
        InputAction::KeyUp { key, location } => "Key up: "@ + key_name(key),
        InputAction::KeySequence { keys, key_delay_ms } => "Pressed sequence of "@ + dec_digits(
            keys@.len() as int,
        ) + " keys"@,
        InputAction::TypeText { text, char_delay_ms } => "Typed text: "@ + text@,
        InputAction::Hotkey { modifiers, key, location } => "Pressed hotkey: modifiers "@
            + key_list_name(modifiers@) + " + "@ + key_name(key),
        InputAction::Delay { milliseconds } => "Delayed for "@ + dec_digits(milliseconds as int)
            + "ms"@,
        InputAction::Sequence { actions } => "Sequence completed:\n"@ + step_lines(
            actions@,
            actions@.len() as int,
        ),
        InputAction::Parallel { actions } => "Parallel actions completed"@,
    }
}

/// The numbered report lines of the first `n` children of a sequence, each
/// `Step i: ` followed by the child's description, joined by line breaks.
pub open spec fn step_lines(actions: Seq<InputAction>, n: int) -> Seq<char>
    decreases actions, n,
{
    if n <= 0 || n > actions.len() {
        seq![]
    } else if n == 1 {
        "Step "@ + dec_digits(1) + ": "@ + describe(actions[0])
    } else {
        step_lines(actions, n - 1) + "\n"@ + "Step "@ + dec_digits(n) + ": "@ + describe(
            actions[n - 1],
        )
    }
}

/// The suspensions of the children's plans, summed in order.
pub open spec fn actions_sleep_total(actions: Seq<InputAction>) -> int
    decreases actions,
{
    if actions.len() == 0 {
        0
    } else {
        actions_sleep_total(actions.drop_last()) + total_sleep_ms(action_events(actions.last()))
    }
}

/// A delay's plan suspends for exactly the requested time.
pub proof fn lemma_delay_sleep_total(milliseconds: u64)
    ensures
        total_sleep_ms(action_events(InputAction::Delay { milliseconds })) == milliseconds,
{
    reveal_with_fuel(total_sleep_ms, 2);
    let plan = action_events(InputAction::Delay { milliseconds });
    assert(plan.drop_last() =~= Seq::<EventV>::empty());
}

/// A sequence's plan suspends for as long as all its children's plans
/// together: evaluating children strictly in order keeps every suspension,
/// so the sequence completes only after every child's delays have elapsed.
pub proof fn lemma_sequence_sleep_total(actions: Seq<InputAction>)
    ensures
        total_sleep_ms(actions_events(actions)) == actions_sleep_total(actions),
    decreases actions.len(),
{
    if actions.len() == 0 {
    } else {
        lemma_sequence_sleep_total(actions.drop_last());
        crate::events::lemma_total_sleep_ms_concat(
            actions_events(actions.drop_last()),
            action_events(actions.last()),
        );
    }
}

/// The interpreter: evaluates action trees into their injection plan and
/// audit description, resolving keys and buttons through the two actuators.
#[derive(Clone)]
pub struct InputSimulator {
    keyboard: KeyboardSimulator,
    mouse: MouseSimulator,
}

impl InputSimulator {
    pub fn new() -> (simulator: InputSimulator) {
        InputSimulator { keyboard: KeyboardSimulator::new(), mouse: MouseSimulator::new() }
    }

    /// Reports the screen size. Size discovery is not wired to the platform;
    /// the reported size is zero in both dimensions.
    pub fn get_screen_size(&self) -> (size: (u32, u32))
        ensures
            size.0 == 0 && size.1 == 0,
    {
        (0, 0)
    }

    /// Evaluates one action tree: appends its whole injection plan to
    /// `events`, depth-first and left-to-right, and returns its audit
    /// description. The caller performs the plan while it holds the
    /// exclusive injection resource.
    #[verifier::loop_isolation(false)]
    #[verifier::rlimit(100)]
    pub fn execute_action(&self, action: &InputAction, events: &mut Vec<InjectionEvent>) -> (description: String)
        ensures
            final(events).deep_view() == old(events).deep_view() + action_events(*action),
            description@ == describe(*action),
        decreases *action,
    {
        let ghost base = events.deep_view();
        match action {
            InputAction::MouseMove { x, y } => {
                self.mouse.move_to(events, *x, *y);
                let mut description = String::from_str("Moved to (");
                append_i32(&mut description, *x);
                description.append(", ");
                append_i32(&mut description, *y);
                description.append(")");
                proof {
                    assert(description@ =~= describe(*action));
                }
                description
            },
            InputAction::MouseClick { button, x, y } => {
                self.mouse.click(events, *button, *x, *y);
                let mut description = String::from_str("Clicked ");
                append_button_name(&mut description, *button);
                description.append(" at (");
                append_i32(&mut description, *x);
                description.append(", ");
                append_i32(&mut description, *y);
                description.append(")");
                proof {
                    assert(description@ =~= describe(*action));
                }
                description
            },
            InputAction::MouseDoubleClick { button, x, y } => {
                self.mouse.double_click(events, *button, *x, *y);
                let mut description = String::from_str("Double clicked ");
                append_button_name(&mut description, *button);
                description.append(" at (");
                append_i32(&mut description, *x);
                description.append(", ");
                append_i32(&mut description, *y);
                description.append(")");
                proof {
                    assert(description@ =~= describe(*action));
                }
                description
            },
            InputAction::MousePress { button, x, y, duration_ms } => {
                self.mouse.press(events, *button, *x, *y, *duration_ms);
                let mut description = String::from_str("Pressed ");
                append_button_name(&mut description, *button);
                description.append(" at (");
                append_i32(&mut description, *x);
                description.append(", ");
                append_i32(&mut description, *y);
                description.append(") for ");
                append_u64(&mut description, *duration_ms);
                description.append("ms");
                proof {
                    assert(description@ =~= describe(*action));
                }
                description
            },
            InputAction::MouseDrag { button, start_x, start_y, end_x, end_y, duration_ms } => {
                self.mouse.drag(events, *button, *start_x, *start_y, *end_x, *end_y, *duration_ms);
                let mut description = String::from_str("Dragged ");
                append_button_name(&mut description, *button);
                description.append(" from (");
                append_i32(&mut description, *start_x);
                description.append(", ");
                append_i32(&mut description, *start_y);
                description.append(") to (");
                append_i32(&mut description, *end_x);
                description.append(", ");
                append_i32(&mut description, *end_y);
                description.append(") over ");
                append_u64(&mut description, *duration_ms);
                description.append("ms");
                proof {
                    assert(description@ =~= describe(*action));
                }
                description
            },
            InputAction::MouseScroll { delta_x, delta_y } => {
                self.mouse.scroll(events, *delta_x, *delta_y);
                let mut description = String::from_str("Scrolled: horizontal ");
                append_i32(&mut description, *delta_x);
                description.append(", vertical ");
                append_i32(&mut description, *delta_y);
                proof {
                    assert(description@ =~= describe(*action));
                }
                description
            },
            InputAction::KeyPress { key, location } => {
                self.keyboard.press_key(events, *key, *location);
                let mut description = String::from_str("Pressed key ");
                append_key_name(&mut description, *key);
                proof {
                    assert(description@ =~= describe(*action));
                }
                description
            },
            InputAction::KeyDown { key, location } => {
                self.keyboard.key_down(events, *key, *location);
                let mut description = String::from_str("Key down: ");
                append_key_name(&mut description, *key);
                proof {
                    assert(description@ =~= describe(*action));
                }
                description
            },
            InputAction::KeyUp { key, location } => {
                self.keyboard.key_up(events, *key, *location);
                let mut description = String::from_str("Key up: ");
                append_key_name(&mut description, *key);
                proof {
                    assert(description@ =~= describe(*action));
                }
                description
            },
            InputAction::KeySequence { keys, key_delay_ms } => {
                let n = keys.len();
                for i in 0..n
                    invariant
                        n == keys.len(),
                        events.deep_view() == base + key_sequence_events(
                            keys@,
                            *key_delay_ms,
                            i as int,
                        ),
                {
                    self.keyboard.press_key(events, keys[i], None);
                    if let Some(delay) = key_delay_ms {
                        if i < n - 1 {
                            push_event(events, InjectionEvent::Sleep { milliseconds: *delay });
                        }
                    }
                    proof {
                        assert(events.deep_view() =~= base + key_sequence_events(
                            keys@,
                            *key_delay_ms,
                            i + 1,
                        ));
                    }
                }
                let mut description = String::from_str("Pressed sequence of ");
                append_u64(&mut description, n as u64);
                description.append(" keys");
                proof {
                    assert(description@ =~= describe(*action));
                }
                description
            },
            InputAction::TypeText { text, char_delay_ms } => {
                match char_delay_ms {
                    Some(delay) => {
                        let mut separator_due = false;
                        for c in it: text.chars()
                            invariant
                                it.seq() == text@,
                                0 <= it.index() <= text@.len(),
                                separator_due == (it.index() > 0),
                                events.deep_view() == base + typed_chars_events(
                                    text@,
                                    *delay as int,
                                    it.index() as int,
                                ),
                        {
                            if separator_due {
                                push_event(events, InjectionEvent::Sleep { milliseconds: *delay });
                            }
                            push_event(
                                events,
                                InjectionEvent::Key {
                                    key: PhysicalKey::Unicode(c),
                                    direction: PressDirection::Press,
                                },
                            );
                            separator_due = true;
                            proof {
                                let idx = it.index() as int;
                                assert(c == text@[idx]);
                                assert(events.deep_view() =~= base + typed_chars_events(
                                    text@,
                                    *delay as int,
                                    idx + 1,
                                ));
                            }
                        }
                    },
                    None => {
                        self.keyboard.type_text(events, text.as_str());
                    },
                }
                let mut description = String::from_str("Typed text: ");
                description.append(text.as_str());
                proof {
                    assert(description@ =~= describe(*action));
                }
                description
            },
            InputAction::Hotkey { modifiers, key, location } => {
                self.keyboard.hotkey(events, modifiers, *key, *location);
                let mut description = String::from_str("Pressed hotkey: modifiers ");
                append_key_list(&mut description, modifiers);
                description.append(" + ");
                append_key_name(&mut description, *key);
                proof {
                    assert(description@ =~= describe(*action));
                }
                description
            },
            InputAction::Delay { milliseconds } => {
                push_event(events, InjectionEvent::Sleep { milliseconds: *milliseconds });
                let mut description = String::from_str("Delayed for ");
                append_u64(&mut description, *milliseconds);
                description.append("ms");
                proof {
                    assert(description@ =~= describe(*action));
                }
                description
            },
            InputAction::Sequence { actions } => {
                let mut description = String::from_str("Sequence completed:\n");
                let n = actions.len();
                for i in 0..n
                    invariant
                        n == actions.len(),
                        events.deep_view() == base + actions_events(actions@.take(i as int)),
                        description@ == "Sequence completed:\n"@ + step_lines(actions@, i as int),
                    decreases n - i,
                {
                    if i > 0 {
                        description.append("\n");
                    }
                    description.append("Step ");
                    append_u64(&mut description, (i + 1) as u64);
                    description.append(": ");
                    proof {
                        assert(decreases_to!(*action => *actions));
                        assert(decreases_to!(*actions => actions[i as int]));
                    }
                    let step_description = self.execute_action(&actions[i], events);
                    description.append(step_description.as_str());
                    proof {
                        assert(actions@.take(i + 1).drop_last() =~= actions@.take(i as int));
                        assert(actions@.take(i + 1).last() == actions@[i as int]);
                        assert(events.deep_view() =~= base + actions_events(actions@.take(i + 1)));
                        assert(description@ =~= "Sequence completed:\n"@ + step_lines(
                            actions@,
                            i + 1,
                        ));
                    }
                }
                proof {
                    assert(actions@.take(n as int) =~= actions@);
                    assert(events.deep_view() =~= base + action_events(*action));
                    assert(description@ =~= describe(*action));
                }
                description
            },
            InputAction::Parallel { actions } => {
                let description = String::from_str("Parallel actions completed");
                proof {
                    assert(events.deep_view() =~= base + action_events(*action));
                }
                description
            },
        }
    }
}

} // verus!
