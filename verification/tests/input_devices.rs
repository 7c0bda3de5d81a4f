use desktop_automation::global_listener::windows_backend::{handle_keydown, handle_keyup};
use desktop_automation::global_listener::{
    GlobalInputAction, GlobalInputActionType, ListenerState,
};
use desktop_automation::keyboard::{get_key, unicode, Key, KeyboardError, SpecialKey, UnicodeKey};
use desktop_automation::mouse::{MouseButton, MouseError};
use desktop_automation::position::Position;

fn key(kind: &str, value: &str) -> UnicodeKey {
    UnicodeKey { kind: kind.to_string(), value: value.to_string() }
}

#[test]
fn position_keeps_its_sides() {
    let position = Position::new(-3, 7);
    assert_eq!(position, Position { x: -3, y: 7 });
    assert_eq!(Position::from((4, -5)), Position::new(4, -5));
}

#[test]
fn distance_is_rounded_down() {
    let origin = Position::new(0, 0);
    assert_eq!(Position::distance(&origin, &Position::new(3, 4)), 5);
    assert_eq!(Position::distance(&Position::new(3, 4), &origin), 5);
    assert_eq!(Position::distance(&origin, &Position::new(1, 1)), 1);
    assert_eq!(Position::distance(&origin, &Position::new(2, 2)), 2);
    assert_eq!(Position::distance(&origin, &Position::new(-7, 0)), 7);
    assert_eq!(Position::distance(&Position::new(10, 10), &Position::new(10, 10)), 0);
    assert_eq!(Position::distance(&Position::new(-100, -100), &Position::new(100, 100)), 282);
    assert_eq!(Position::distance(&origin, &Position::new(46340, 0)), 46340);
    assert_eq!(Position::distance(&origin, &Position::new(30000, 40000)), 50000);
}

#[test]
fn distance_across_the_whole_range_is_held_at_the_largest() {
    let low = Position::new(i32::MIN, i32::MIN);
    let high = Position::new(i32::MAX, i32::MAX);
    assert_eq!(Position::distance(&low, &high), u32::MAX);
    assert_eq!(Position::distance(&Position::new(i32::MIN, 0), &Position::new(i32::MAX, 0)), u32::MAX);
    assert_eq!(
        Position::distance(&Position::new(i32::MIN, 0), &Position::new(i32::MAX - 1, 0)),
        u32::MAX - 1
    );
}

#[test]
fn clamp_brings_a_point_into_the_rectangle() {
    let min = Position::new(0, 0);
    let max = Position::new(1920, 1080);
    assert_eq!(Position::new(500, 600).clamp(&min, &max), Position::new(500, 600));
    assert_eq!(Position::new(-5, 2000).clamp(&min, &max), Position::new(0, 1080));
    assert_eq!(Position::new(1921, -1).clamp(&min, &max), Position::new(1920, 0));
    assert_eq!(Position::new(9, 9).clamp(&min, &min), min);
}

#[test]
fn points_add_and_subtract_side_by_side() {
    let a = Position::new(10, -20);
    let b = Position::new(-3, 5);
    assert_eq!(a.plus(&b), Position::new(7, -15));
    assert_eq!(a.minus(&b), Position::new(13, -25));
    assert_eq!(a.plus(&b).minus(&b), a);
}

#[test]
fn unicode_key_is_of_kind_unicode() {
    assert_eq!(unicode("a".to_string()), key("Unicode", "a"));
}

#[test]
fn key_of_one_character_is_named() {
    assert_eq!(get_key(&unicode("a".to_string())), Ok(Key::Unicode('a')));
    assert_eq!(get_key(&key("Unicode", "\u{e9}")), Ok(Key::Unicode('\u{e9}')));
    assert_eq!(get_key(&key("Unicode", "\u{1F600}")), Ok(Key::Unicode('\u{1F600}')));
}

#[test]
fn key_without_character_is_refused() {
    assert_eq!(
        get_key(&key("Unicode", "")),
        Err(KeyboardError { message: "Empty char".to_string() })
    );
}

#[test]
fn key_of_several_characters_is_refused() {
    assert_eq!(
        get_key(&key("Unicode", "ab")),
        Err(KeyboardError { message: "Unicode value must be a single char".to_string() })
    );
    assert_eq!(
        get_key(&key("Unicode", "e\u{301}")),
        Err(KeyboardError { message: "Unicode value must be a single char".to_string() })
    );
}

#[test]
fn key_of_another_kind_is_refused() {
    assert_eq!(
        get_key(&key("Special", "a")),
        Err(KeyboardError { message: "Unknown object kind".to_string() })
    );
    assert_eq!(
        get_key(&key("unicode", "a")),
        Err(KeyboardError { message: "Unknown object kind".to_string() })
    );
    assert_eq!(
        get_key(&key("", "")),
        Err(KeyboardError { message: "Unknown object kind".to_string() })
    );
}

#[test]
fn virtual_key_codes_name_their_keys() {
    let table = [
        (0x08, SpecialKey::Backspace),
        (0x09, SpecialKey::Tab),
        (0x10, SpecialKey::Shift),
        (0x11, SpecialKey::Control),
        (0x12, SpecialKey::Alt),
        (0x13, SpecialKey::Pause),
        (0x1B, SpecialKey::Escape),
        (0x20, SpecialKey::Space),
        (0x21, SpecialKey::PageUp),
        (0x22, SpecialKey::PageDown),
        (0x23, SpecialKey::End),
        (0x24, SpecialKey::Home),
        (0x2D, SpecialKey::Insert),
        (0x2E, SpecialKey::Delete),
        (0xA0, SpecialKey::LShift),
        (0xA1, SpecialKey::RShift),
        (0xA2, SpecialKey::LControl),
        (0xA3, SpecialKey::RControl),
    ];
    for (code, named) in table {
        assert_eq!(SpecialKey::try_from(code), Ok(named));
    }
    for code in [0x00, 0x07, 0x0A, 0x41, 0x70, 0xA4, 0xFF, u32::MAX] {
        assert_eq!(SpecialKey::try_from(code), Err(()));
    }
}

#[test]
fn key_down_reports_the_named_key_first() {
    assert_eq!(
        handle_keydown(0x1B, Some('\u{1b}')),
        GlobalInputAction::KeyDown {
            value: GlobalInputActionType::SpecialKey { key: SpecialKey::Escape }
        }
    );
    assert_eq!(
        handle_keydown(0x20, None),
        GlobalInputAction::KeyDown {
            value: GlobalInputActionType::SpecialKey { key: SpecialKey::Space }
        }
    );
}

#[test]
fn key_down_reports_the_typed_character() {
    assert_eq!(
        handle_keydown(0x41, Some('a')),
        GlobalInputAction::KeyDown {
            value: GlobalInputActionType::UnicodeKey { key: key("Unicode", "a") }
        }
    );
    assert_eq!(
        GlobalInputActionType::from(0xBA, Some('\u{f6}')),
        GlobalInputActionType::UnicodeKey { key: key("Unicode", "\u{f6}") }
    );
}

#[test]
fn key_without_name_or_character_is_reported_by_code() {
    assert_eq!(
        handle_keydown(0x70, None),
        GlobalInputAction::KeyDown { value: GlobalInputActionType::Raw { keycode: 0x70 } }
    );
    assert_eq!(
        handle_keyup(0x5B, None),
        GlobalInputAction::KeyUp { value: GlobalInputActionType::Raw { keycode: 0x5B } }
    );
}

#[test]
fn key_up_reports_as_key_down_does() {
    assert_eq!(
        handle_keyup(0x09, None),
        GlobalInputAction::KeyUp {
            value: GlobalInputActionType::SpecialKey { key: SpecialKey::Tab }
        }
    );
    assert_eq!(
        handle_keyup(0x5A, Some('z')),
        GlobalInputAction::KeyUp {
            value: GlobalInputActionType::UnicodeKey { key: key("Unicode", "z") }
        }
    );
}

#[test]
fn mouse_error_carries_its_message() {
    assert_eq!(MouseError::new("no display").message, "no display");
    assert_eq!(MouseError::locked().message, "Only one mouse task is allowed at a time");
    assert_ne!(MouseButton::Left, MouseButton::Right);
}

#[test]
fn subscribers_get_ids_in_turn() {
    let mut state = ListenerState::new();
    assert_eq!(state.next_id(), 0);
    assert!(state.subscribers().is_empty());
    assert_eq!(state.add_subscriber("first"), 0);
    assert_eq!(state.add_subscriber("second"), 1);
    assert_eq!(state.add_subscriber("third"), 2);
    assert_eq!(state.next_id(), 3);
    assert_eq!(state.subscribers().len(), 3);
    assert_eq!(state.subscribers().get(&1), Some(&"second"));
}

#[test]
fn subscriber_that_left_leaves_its_id_unused() {
    let mut state = ListenerState::new();
    let first = state.add_subscriber(10);
    let second = state.add_subscriber(20);
    state.remove_subscriber(first);
    assert_eq!(state.subscribers().get(&first), None);
    assert_eq!(state.subscribers().get(&second), Some(&20));
    state.remove_subscriber(first);
    state.remove_subscriber(99);
    assert_eq!(state.subscribers().len(), 1);
    assert_eq!(state.add_subscriber(30), 2);
    assert_eq!(state.subscribers().len(), 2);
}
