use input_sim::enums::{InputAction, Key, KeyLocation, MouseButton};
use input_sim::events::{InjectionEvent, PhysicalButton, PhysicalKey, PressDirection, ScrollAxis};
use input_sim::executor::ActionExecutor;
use input_sim::simulator::InputSimulator;

fn run(action: &InputAction) -> (String, Vec<InjectionEvent>) {
    let simulator = InputSimulator::new();
    let mut events: Vec<InjectionEvent> = Vec::new();
    let description = simulator.execute_action(action, &mut events);
    (description, events)
}

#[test]
fn sequence_reports_ordered_numbered_results() {
    let action = InputAction::Sequence {
        actions: vec![
            InputAction::Delay { milliseconds: 10 },
            InputAction::MouseMove { x: 5, y: 5 },
        ],
    };
    let (description, events) = run(&action);
    assert_eq!(description, "Sequence completed:\nStep 1: Delayed for 10ms\nStep 2: Moved to (5, 5)");
    assert_eq!(
        events,
        vec![
            InjectionEvent::Sleep { milliseconds: 10 },
            InjectionEvent::PointerMove { x: 5, y: 5 },
        ]
    );
}

#[test]
fn empty_sequence_reports_no_steps() {
    let (description, events) = run(&InputAction::Sequence { actions: vec![] });
    assert_eq!(description, "Sequence completed:\n");
    assert_eq!(events, vec![]);
}

#[test]
fn parallel_performs_no_actuation() {
    let action = InputAction::Parallel {
        actions: vec![InputAction::MouseMove { x: 1, y: 2 }],
    };
    let (description, events) = run(&action);
    assert_eq!(description, "Parallel actions completed");
    assert_eq!(events, vec![]);
}

#[test]
fn mouse_descriptions_spell_out_the_parameters() {
    let (description, _) = run(&InputAction::MouseClick { button: MouseButton::Right, x: -4, y: 17 });
    assert_eq!(description, "Clicked Right at (-4, 17)");
    let (description, _) = run(&InputAction::MouseDoubleClick {
        button: MouseButton::Other(3),
        x: 0,
        y: 0,
    });
    assert_eq!(description, "Double clicked Other(3) at (0, 0)");
    let (description, _) = run(&InputAction::MousePress {
        button: MouseButton::Middle,
        x: 9,
        y: 9,
        duration_ms: 250,
    });
    assert_eq!(description, "Pressed Middle at (9, 9) for 250ms");
    let (description, _) = run(&InputAction::MouseDrag {
        button: MouseButton::Left,
        start_x: 1,
        start_y: 2,
        end_x: 3,
        end_y: 4,
        duration_ms: 100,
    });
    assert_eq!(description, "Dragged Left from (1, 2) to (3, 4) over 100ms");
    let (description, _) = run(&InputAction::MouseScroll { delta_x: -1, delta_y: 8 });
    assert_eq!(description, "Scrolled: horizontal -1, vertical 8");
    let (description, _) = run(&InputAction::MouseMove { x: -2147483648, y: 2147483647 });
    assert_eq!(description, "Moved to (-2147483648, 2147483647)");
}

#[test]
fn keyboard_descriptions_spell_out_the_keys() {
    let (description, _) = run(&InputAction::KeyPress { key: Key::A, location: None });
    assert_eq!(description, "Pressed key A");
    let (description, _) = run(&InputAction::KeyDown {
        key: Key::Shift,
        location: Some(KeyLocation::Left),
    });
    assert_eq!(description, "Key down: Shift");
    let (description, _) = run(&InputAction::KeyUp { key: Key::Other(42), location: None });
    assert_eq!(description, "Key up: Other(42)");
    let (description, _) = run(&InputAction::Hotkey {
        modifiers: vec![Key::Ctrl, Key::Shift],
        key: Key::A,
        location: None,
    });
    assert_eq!(description, "Pressed hotkey: modifiers [Ctrl, Shift] + A");
    let (description, _) = run(&InputAction::KeySequence {
        keys: vec![Key::A, Key::B, Key::C],
        key_delay_ms: None,
    });
    assert_eq!(description, "Pressed sequence of 3 keys");
    let (description, _) = run(&InputAction::TypeText {
        text: String::from("hi there"),
        char_delay_ms: None,
    });
    assert_eq!(description, "Typed text: hi there");
}

#[test]
fn key_sequence_sleeps_between_keys_but_not_after_the_last() {
    let action = InputAction::KeySequence {
        keys: vec![Key::A, Key::B],
        key_delay_ms: Some(30),
    };
    let (_, events) = run(&action);
    assert_eq!(
        events,
        vec![
            InjectionEvent::Key {
                key: PhysicalKey::Unicode('a'),
                direction: PressDirection::Press
            },
            InjectionEvent::Key {
                key: PhysicalKey::Unicode('a'),
                direction: PressDirection::Release
            },
            InjectionEvent::Sleep { milliseconds: 30 },
            InjectionEvent::Key {
                key: PhysicalKey::Unicode('b'),
                direction: PressDirection::Press
            },
            InjectionEvent::Key {
                key: PhysicalKey::Unicode('b'),
                direction: PressDirection::Release
            },
        ]
    );
}

#[test]
fn typed_text_with_delay_sleeps_between_characters_only() {
    let action = InputAction::TypeText { text: String::from("oak"), char_delay_ms: Some(5) };
    let (description, events) = run(&action);
    assert_eq!(description, "Typed text: oak");
    assert_eq!(
        events,
        vec![
            InjectionEvent::Key {
                key: PhysicalKey::Unicode('o'),
                direction: PressDirection::Press
            },
            InjectionEvent::Sleep { milliseconds: 5 },
            InjectionEvent::Key {
                key: PhysicalKey::Unicode('a'),
                direction: PressDirection::Press
            },
            InjectionEvent::Sleep { milliseconds: 5 },
            InjectionEvent::Key {
                key: PhysicalKey::Unicode('k'),
                direction: PressDirection::Press
            },
        ]
    );
}

#[test]
fn typed_text_with_delay_and_one_character_never_sleeps() {
    let action = InputAction::TypeText { text: String::from("x"), char_delay_ms: Some(40) };
    let (_, events) = run(&action);
    assert_eq!(
        events,
        vec![
            InjectionEvent::Key {
                key: PhysicalKey::Unicode('x'),
                direction: PressDirection::Press
            },
        ]
    );
}

#[test]
fn nested_sequences_aggregate_depth_first() {
    let action = InputAction::Sequence {
        actions: vec![
            InputAction::Sequence {
                actions: vec![InputAction::MouseScroll { delta_x: 1, delta_y: 2 }],
            },
            InputAction::Delay { milliseconds: 7 },
        ],
    };
    let (description, events) = run(&action);
    assert_eq!(
        description,
        "Sequence completed:\nStep 1: Sequence completed:\nStep 1: Scrolled: horizontal 1, vertical 2\nStep 2: Delayed for 7ms"
    );
    assert_eq!(
        events,
        vec![
            InjectionEvent::Scroll { axis: ScrollAxis::Horizontal, delta: 1 },
            InjectionEvent::Scroll { axis: ScrollAxis::Vertical, delta: 2 },
            InjectionEvent::Sleep { milliseconds: 7 },
        ]
    );
}

#[test]
fn executor_returns_the_description_and_the_whole_plan() {
    let executor = ActionExecutor::new();
    let action = InputAction::MouseClick { button: MouseButton::Left, x: 3, y: 4 };
    let (description, events) = executor.execute(&action);
    assert_eq!(description, "Clicked Left at (3, 4)");
    assert_eq!(
        events,
        vec![
            InjectionEvent::PointerMove { x: 3, y: 4 },
            InjectionEvent::Button {
                button: PhysicalButton::Left,
                direction: PressDirection::Press
            },
            InjectionEvent::Button {
                button: PhysicalButton::Left,
                direction: PressDirection::Release
            },
        ]
    );
    assert_eq!(executor.get_screen_size(), (0, 0));
}
