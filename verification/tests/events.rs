use cef::events::{
    EventFlags, KeyEvent, MouseButtonType, MouseEvent, PointerType, RawKeyEvent, TouchEventType, WindowsKeyCode,
    EVENT_FLAGS_ALL, KEYEVENT_CHAR, KEYEVENT_KEYDOWN, KEYEVENT_KEYUP, KEYEVENT_RAWKEYDOWN,
};

fn raw(type_: u32, modifiers: u32, code: i32, system: i32, focus: i32) -> RawKeyEvent {
    RawKeyEvent {
        type_,
        modifiers,
        windows_key_code: code,
        native_key_code: 99,
        is_system_key: system,
        character: 65,
        unmodified_character: 97,
        focus_on_editable_field: focus,
    }
}

#[test]
fn key_down_and_raw_key_down_read_alike() {
    let down = KeyEvent::from_raw(raw(KEYEVENT_KEYDOWN, EventFlags::SHIFT_DOWN, WindowsKeyCode::A, 0, 1));
    let raw_down = KeyEvent::from_raw(raw(KEYEVENT_RAWKEYDOWN, EventFlags::SHIFT_DOWN, WindowsKeyCode::A, 0, 1));
    assert_eq!(down, raw_down);
    assert_eq!(
        down,
        KeyEvent::KeyDown {
            modifiers: EventFlags::from_unchecked(2),
            windows_key_code: WindowsKeyCode(0x41),
            is_system_key: false,
            focus_on_editable_field: true,
        }
    );
}

#[test]
fn unknown_modifier_bits_are_dropped() {
    let up = KeyEvent::from_raw(raw(KEYEVENT_KEYUP, 0xFFFF_FFFF, 13, 3, 0));
    match up {
        KeyEvent::KeyUp { modifiers, windows_key_code, is_system_key, focus_on_editable_field } => {
            assert_eq!(modifiers.bits(), EVENT_FLAGS_ALL);
            assert_eq!(windows_key_code, WindowsKeyCode(WindowsKeyCode::Return));
            assert!(is_system_key);
            assert!(!focus_on_editable_field);
        }
        _ => panic!("expected a key-up"),
    }
}

#[test]
fn char_events() {
    let c = KeyEvent::from_raw(raw(KEYEVENT_CHAR, 0, 'é' as i32, 0, 0));
    assert_eq!(c, KeyEvent::Char { modifiers: EventFlags::empty(), char: 'é' });
    // a surrogate code is not a char and reads as NUL
    let bad = KeyEvent::from_raw(raw(KEYEVENT_CHAR, 0, 0xD800, 0, 0));
    assert_eq!(bad, KeyEvent::Char { modifiers: EventFlags::empty(), char: '\0' });
    let negative = KeyEvent::from_raw(raw(KEYEVENT_CHAR, 0, -1, 0, 0));
    assert_eq!(negative, KeyEvent::Char { modifiers: EventFlags::empty(), char: '\0' });
}

#[test]
fn as_cef_fills_the_record() {
    let e = KeyEvent::KeyUp {
        modifiers: EventFlags::from_unchecked(EventFlags::CONTROL_DOWN | EventFlags::IS_LEFT),
        windows_key_code: WindowsKeyCode(WindowsKeyCode::F5),
        is_system_key: true,
        focus_on_editable_field: false,
    };
    assert_eq!(
        e.as_cef(),
        RawKeyEvent {
            type_: KEYEVENT_KEYUP,
            modifiers: 4 | 1024,
            windows_key_code: 0x74,
            native_key_code: 0,
            is_system_key: 1,
            character: 0,
            unmodified_character: 0,
            focus_on_editable_field: 0,
        }
    );
    let c = KeyEvent::Char { modifiers: EventFlags::empty(), char: 'x' };
    assert_eq!(c.as_cef().windows_key_code, 'x' as i32);
    assert_eq!(c.as_cef().type_, KEYEVENT_CHAR);
}

#[test]
fn key_event_round_trip() {
    let events = [
        KeyEvent::KeyDown {
            modifiers: EventFlags::from_unchecked(EventFlags::ALT_DOWN),
            windows_key_code: WindowsKeyCode(WindowsKeyCode::Escape),
            is_system_key: true,
            focus_on_editable_field: true,
        },
        KeyEvent::KeyUp {
            modifiers: EventFlags::all(),
            windows_key_code: WindowsKeyCode(-3),
            is_system_key: false,
            focus_on_editable_field: false,
        },
        KeyEvent::Char { modifiers: EventFlags::from_unchecked(1), char: '\u{10FFFF}' },
    ];
    for e in events.iter() {
        assert_eq!(KeyEvent::from_raw(e.as_cef()), *e);
    }
}

#[test]
fn key_code_aliases() {
    assert_eq!(WindowsKeyCode::Hangul, WindowsKeyCode::Kana);
    assert_eq!(WindowsKeyCode::Kanji, 0x19);
    assert_eq!(WindowsKeyCode::OemClear, 0xFE);
}

#[test]
fn event_flags_operations() {
    let mut f = EventFlags::default();
    assert_eq!(f.bits(), 0);
    f.insert(EventFlags::SHIFT_DOWN | EventFlags::NUM_LOCK_ON);
    assert!(f.contains(EventFlags::SHIFT_DOWN));
    assert!(!f.contains(EventFlags::SHIFT_DOWN | EventFlags::ALT_DOWN));
    f.remove(EventFlags::SHIFT_DOWN);
    assert_eq!(f.bits(), 256);
    assert_eq!(EventFlags::from_bits_truncate(0x1_0001).bits(), 1);
}

#[test]
fn small_event_codes() {
    assert_eq!(MouseButtonType::from_unchecked(1), MouseButtonType::Middle);
    assert_eq!(MouseButtonType::Right.to_raw(), 2);
    assert_eq!(TouchEventType::from_unchecked(3), TouchEventType::Cancelled);
    assert_eq!(PointerType::from_unchecked(4), PointerType::Unknown);
    let m = MouseEvent { x: 3, y: -4, modifiers: EventFlags::from_unchecked(16) };
    let r = m.as_cef();
    assert_eq!((r.x, r.y, r.modifiers), (3, -4, 16));
}
