use input_sim::enums::{Key, KeyLocation, MouseButton};
use input_sim::events::{InjectionEvent, PhysicalButton, PhysicalKey, PressDirection, ScrollAxis};
use input_sim::keyboard::KeyboardSimulator;
use input_sim::mouse::MouseSimulator;

fn key_event(key: PhysicalKey, direction: PressDirection) -> InjectionEvent {
    InjectionEvent::Key { key, direction }
}

#[test]
fn hotkey_releases_modifiers_in_reverse_order() {
    let keyboard = KeyboardSimulator::new();
    let mut events: Vec<InjectionEvent> = Vec::new();
    keyboard.hotkey(&mut events, &vec![Key::Ctrl, Key::Shift], Key::A, None);
    assert_eq!(
        events,
        vec![
            key_event(PhysicalKey::Control, PressDirection::Press),
            key_event(PhysicalKey::Shift, PressDirection::Press),
            key_event(PhysicalKey::Unicode('a'), PressDirection::Press),
            key_event(PhysicalKey::Unicode('a'), PressDirection::Release),
            key_event(PhysicalKey::Shift, PressDirection::Release),
            key_event(PhysicalKey::Control, PressDirection::Release),
        ]
    );
}

#[test]
fn hotkey_skips_unresolvable_modifiers() {
    let keyboard = KeyboardSimulator::new();
    let mut events: Vec<InjectionEvent> = Vec::new();
    keyboard.hotkey(&mut events, &vec![Key::Ctrl, Key::Other(9)], Key::B, None);
    assert_eq!(
        events,
        vec![
            key_event(PhysicalKey::Control, PressDirection::Press),
            key_event(PhysicalKey::Unicode('b'), PressDirection::Press),
            key_event(PhysicalKey::Unicode('b'), PressDirection::Release),
            key_event(PhysicalKey::Control, PressDirection::Release),
        ]
    );
}

#[test]
fn key_down_of_unsupported_key_is_a_silent_no_op() {
    let keyboard = KeyboardSimulator::new();
    let mut events: Vec<InjectionEvent> = Vec::new();
    keyboard.key_down(&mut events, Key::Other(77), None);
    keyboard.key_up(&mut events, Key::Numpad3, Some(KeyLocation::Numpad));
    assert_eq!(events, vec![]);
}

#[test]
fn press_key_is_down_then_up() {
    let keyboard = KeyboardSimulator::new();
    let mut events: Vec<InjectionEvent> = Vec::new();
    keyboard.press_key(&mut events, Key::Shift, Some(KeyLocation::Right));
    assert_eq!(
        events,
        vec![
            key_event(PhysicalKey::RShift, PressDirection::Press),
            key_event(PhysicalKey::RShift, PressDirection::Release),
        ]
    );
}

#[test]
fn type_text_is_one_text_injection() {
    let keyboard = KeyboardSimulator::new();
    let mut events: Vec<InjectionEvent> = Vec::new();
    keyboard.type_text(&mut events, "héllo");
    assert_eq!(events, vec![InjectionEvent::Text { text: String::from("héllo") }]);
}

#[test]
fn drag_interpolates_twenty_steps_and_lands_on_the_end() {
    let mouse = MouseSimulator::new();
    let mut events: Vec<InjectionEvent> = Vec::new();
    mouse.drag(&mut events, MouseButton::Left, 0, 0, 100, 210, 1000);
    // initial move, press, 20 interpolated (move, sleep) pairs, release
    assert_eq!(events.len(), 43);
    assert_eq!(events[0], InjectionEvent::PointerMove { x: 0, y: 0 });
    assert_eq!(
        events[1],
        InjectionEvent::Button { button: PhysicalButton::Left, direction: PressDirection::Press }
    );
    let mut moves = 0;
    for step in 1..=20u32 {
        let event = &events[2 * step as usize];
        if let InjectionEvent::PointerMove { x, y } = event {
            moves += 1;
            assert_eq!(*x, (100 * step as i64 / 20) as i32);
            assert_eq!(*y, (210 * step as i64 / 20) as i32);
        } else {
            panic!("expected a pointer move, found {:?}", event);
        }
        assert_eq!(events[2 * step as usize + 1], InjectionEvent::Sleep { milliseconds: 50 });
    }
    assert_eq!(moves, 20);
    assert_eq!(events[40], InjectionEvent::PointerMove { x: 100, y: 210 });
    assert_eq!(
        events[42],
        InjectionEvent::Button { button: PhysicalButton::Left, direction: PressDirection::Release }
    );
}

#[test]
fn drag_toward_negative_coordinates_lands_on_the_end() {
    let mouse = MouseSimulator::new();
    let mut events: Vec<InjectionEvent> = Vec::new();
    mouse.drag(&mut events, MouseButton::Right, 10, 5, -30, -45, 40);
    assert_eq!(events.len(), 43);
    assert_eq!(events[40], InjectionEvent::PointerMove { x: -30, y: -45 });
    assert_eq!(events[3], InjectionEvent::Sleep { milliseconds: 2 });
}

#[test]
fn click_moves_then_presses_and_releases() {
    let mouse = MouseSimulator::new();
    let mut events: Vec<InjectionEvent> = Vec::new();
    mouse.click(&mut events, MouseButton::Other(9), 4, -6);
    assert_eq!(
        events,
        vec![
            InjectionEvent::PointerMove { x: 4, y: -6 },
            InjectionEvent::Button {
                button: PhysicalButton::Left,
                direction: PressDirection::Press
            },
            InjectionEvent::Button {
                button: PhysicalButton::Left,
                direction: PressDirection::Release
            },
        ]
    );
}

#[test]
fn press_holds_for_the_requested_duration() {
    let mouse = MouseSimulator::new();
    let mut events: Vec<InjectionEvent> = Vec::new();
    mouse.press(&mut events, MouseButton::Middle, 7, 8, 350);
    assert_eq!(
        events,
        vec![
            InjectionEvent::PointerMove { x: 7, y: 8 },
            InjectionEvent::Button {
                button: PhysicalButton::Middle,
                direction: PressDirection::Press
            },
            InjectionEvent::Sleep { milliseconds: 350 },
            InjectionEvent::Button {
                button: PhysicalButton::Middle,
                direction: PressDirection::Release
            },
        ]
    );
}

#[test]
fn scroll_issues_one_injection_per_axis() {
    let mouse = MouseSimulator::new();
    let mut events: Vec<InjectionEvent> = Vec::new();
    mouse.scroll(&mut events, 3, -2);
    assert_eq!(
        events,
        vec![
            InjectionEvent::Scroll { axis: ScrollAxis::Horizontal, delta: 3 },
            InjectionEvent::Scroll { axis: ScrollAxis::Vertical, delta: -2 },
        ]
    );
}
