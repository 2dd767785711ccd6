use input_sim::codec::{decode_action, encode_action};
use input_sim::enums::{InputAction, Key, KeyLocation, MouseButton};

fn round_trip(action: &InputAction) -> InputAction {
    let bytes = encode_action(action);
    let decoded = decode_action(&bytes).expect("a complete wire form must decode");
    // the wire form of the decoded action is the same bytes
    assert_eq!(encode_action(&decoded), bytes);
    decoded
}

#[test]
fn mouse_variants_survive_the_round_trip() {
    let decoded = round_trip(&InputAction::MouseMove { x: -7, y: 2147483647 });
    assert!(matches!(decoded, InputAction::MouseMove { x: -7, y: 2147483647 }));

    let decoded = round_trip(&InputAction::MouseClick { button: MouseButton::Right, x: 1, y: -2 });
    assert!(matches!(
        decoded,
        InputAction::MouseClick { button: MouseButton::Right, x: 1, y: -2 }
    ));

    let decoded = round_trip(&InputAction::MouseDoubleClick {
        button: MouseButton::Other(250),
        x: 0,
        y: 0,
    });
    assert!(matches!(
        decoded,
        InputAction::MouseDoubleClick { button: MouseButton::Other(250), x: 0, y: 0 }
    ));

    let decoded = round_trip(&InputAction::MousePress {
        button: MouseButton::Middle,
        x: 5,
        y: 6,
        duration_ms: 18446744073709551615,
    });
    assert!(matches!(
        decoded,
        InputAction::MousePress {
            button: MouseButton::Middle,
            x: 5,
            y: 6,
            duration_ms: 18446744073709551615,
        }
    ));

    let decoded = round_trip(&InputAction::MouseDrag {
        button: MouseButton::Back,
        start_x: -1,
        start_y: -2,
        end_x: 3,
        end_y: 4,
        duration_ms: 1000,
    });
    assert!(matches!(
        decoded,
        InputAction::MouseDrag {
            button: MouseButton::Back,
            start_x: -1,
            start_y: -2,
            end_x: 3,
            end_y: 4,
            duration_ms: 1000,
        }
    ));

    let decoded = round_trip(&InputAction::MouseScroll { delta_x: -3, delta_y: 9 });
    assert!(matches!(decoded, InputAction::MouseScroll { delta_x: -3, delta_y: 9 }));
}

#[test]
fn keyboard_variants_survive_the_round_trip() {
    let decoded = round_trip(&InputAction::KeyPress {
        key: Key::A,
        location: Some(KeyLocation::Standard),
    });
    assert!(matches!(
        decoded,
        InputAction::KeyPress { key: Key::A, location: Some(KeyLocation::Standard) }
    ));

    let decoded = round_trip(&InputAction::KeyDown {
        key: Key::Other(4294967295),
        location: None,
    });
    assert!(matches!(
        decoded,
        InputAction::KeyDown { key: Key::Other(4294967295), location: None }
    ));

    let decoded = round_trip(&InputAction::KeyUp {
        key: Key::MediaPreviousTrack,
        location: Some(KeyLocation::Numpad),
    });
    assert!(matches!(
        decoded,
        InputAction::KeyUp { key: Key::MediaPreviousTrack, location: Some(KeyLocation::Numpad) }
    ));

    let decoded = round_trip(&InputAction::KeySequence {
        keys: vec![Key::A, Key::Other(7), Key::NumpadEnter],
        key_delay_ms: Some(25),
    });
    match decoded {
        InputAction::KeySequence { keys, key_delay_ms } => {
            assert_eq!(keys, vec![Key::A, Key::Other(7), Key::NumpadEnter]);
            assert_eq!(key_delay_ms, Some(25));
        },
        other => panic!("wrong variant: {:?}", other),
    }

    let decoded = round_trip(&InputAction::TypeText {
        text: String::from("héllo wörld ✓"),
        char_delay_ms: None,
    });
    match decoded {
        InputAction::TypeText { text, char_delay_ms } => {
            assert_eq!(text, "héllo wörld ✓");
            assert_eq!(char_delay_ms, None);
        },
        other => panic!("wrong variant: {:?}", other),
    }

    let decoded = round_trip(&InputAction::Hotkey {
        modifiers: vec![Key::Ctrl, Key::Shift],
        key: Key::A,
        location: Some(KeyLocation::Left),
    });
    match decoded {
        InputAction::Hotkey { modifiers, key, location } => {
            assert_eq!(modifiers, vec![Key::Ctrl, Key::Shift]);
            assert_eq!(key, Key::A);
            assert_eq!(location, Some(KeyLocation::Left));
        },
        other => panic!("wrong variant: {:?}", other),
    }
}

#[test]
fn composite_variants_survive_the_round_trip() {
    let decoded = round_trip(&InputAction::Delay { milliseconds: 0 });
    assert!(matches!(decoded, InputAction::Delay { milliseconds: 0 }));

    let tree = InputAction::Sequence {
        actions: vec![
            InputAction::Delay { milliseconds: 10 },
            InputAction::Parallel {
                actions: vec![InputAction::MouseMove { x: 5, y: 5 }],
            },
            InputAction::Sequence { actions: vec![] },
        ],
    };
    let decoded = round_trip(&tree);
    match decoded {
        InputAction::Sequence { actions } => {
            assert_eq!(actions.len(), 3);
            assert!(matches!(actions[0], InputAction::Delay { milliseconds: 10 }));
            match &actions[1] {
                InputAction::Parallel { actions: inner } => {
                    assert_eq!(inner.len(), 1);
                    assert!(matches!(inner[0], InputAction::MouseMove { x: 5, y: 5 }));
                },
                other => panic!("wrong variant: {:?}", other),
            }
            match &actions[2] {
                InputAction::Sequence { actions: inner } => assert_eq!(inner.len(), 0),
                other => panic!("wrong variant: {:?}", other),
            }
        },
        other => panic!("wrong variant: {:?}", other),
    }
}

#[test]
fn every_key_survives_the_round_trip() {
    let keys = vec![
        Key::Backspace,
        Key::Tab,
        Key::Enter,
        Key::Shift,
        Key::Ctrl,
        Key::Alt,
        Key::CapsLock,
        Key::Escape,
        Key::Space,
        Key::PageUp,
        Key::PageDown,
        Key::End,
        Key::Home,
        Key::ArrowLeft,
        Key::ArrowUp,
        Key::ArrowRight,
        Key::ArrowDown,
        Key::PrintScreen,
        Key::Insert,
        Key::Delete,
        Key::Num0,
        Key::Num9,
        Key::A,
        Key::M,
        Key::Z,
        Key::F1,
        Key::F12,
        Key::Semicolon,
        Key::Equal,
        Key::Comma,
        Key::Minus,
        Key::Period,
        Key::Slash,
        Key::Backquote,
        Key::LeftBracket,
        Key::Backslash,
        Key::RightBracket,
        Key::Quote,
        Key::Numpad0,
        Key::Numpad9,
        Key::NumpadMultiply,
        Key::NumpadAdd,
        Key::NumpadSubtract,
        Key::NumpadDecimal,
        Key::NumpadDivide,
        Key::NumpadEnter,
        Key::Meta,
        Key::ContextMenu,
        Key::VolumeMute,
        Key::VolumeDown,
        Key::VolumeUp,
        Key::MediaPlayPause,
        Key::MediaStop,
        Key::MediaNextTrack,
        Key::MediaPreviousTrack,
        Key::Other(0),
        Key::Other(123456789),
    ];
    let decoded = round_trip(&InputAction::KeySequence {
        keys: keys.clone(),
        key_delay_ms: None,
    });
    match decoded {
        InputAction::KeySequence { keys: decoded_keys, key_delay_ms } => {
            assert_eq!(decoded_keys, keys);
            assert_eq!(key_delay_ms, None);
        },
        other => panic!("wrong variant: {:?}", other),
    }
}

#[test]
fn malformed_bytes_do_not_decode() {
    // empty input
    assert!(decode_action(&vec![]).is_none());
    // unknown tag
    assert!(decode_action(&vec![200u8]).is_none());
    // truncated payload
    let mut bytes = encode_action(&InputAction::Delay { milliseconds: 9 });
    bytes.pop();
    assert!(decode_action(&bytes).is_none());
    // trailing garbage after a complete action
    let mut bytes = encode_action(&InputAction::Delay { milliseconds: 9 });
    bytes.push(0);
    assert!(decode_action(&bytes).is_none());
    // a word that is not a Unicode scalar value
    let mut bytes = vec![10u8];
    bytes.extend_from_slice(&1u64.to_le_bytes());
    bytes.extend_from_slice(&0xD800u32.to_le_bytes());
    bytes.push(0);
    assert!(decode_action(&bytes).is_none());
}
