use vstd::prelude::*;
use crate::values::c_bool;

verus! {

/// The bits of all known event flags.
pub const EVENT_FLAGS_ALL: u32 = 0xFFF;

/// Bit flags describing pressed modifier keys and mouse buttons
/// (`cef_event_flags_t`).
#[derive(Debug, Clone, Copy, PartialEq, Eq, Hash)]
pub struct EventFlags {
    pub bits: u32,
}

impl EventFlags {
    pub const CAPS_LOCK_ON: u32 = 1;
    pub const SHIFT_DOWN: u32 = 2;
    pub const CONTROL_DOWN: u32 = 4;
    pub const ALT_DOWN: u32 = 8;
    pub const LEFT_MOUSE_BUTTON: u32 = 16;
    pub const MIDDLE_MOUSE_BUTTON: u32 = 32;
    pub const RIGHT_MOUSE_BUTTON: u32 = 64;
    pub const COMMAND_DOWN: u32 = 128;
    pub const NUM_LOCK_ON: u32 = 256;
    pub const IS_KEY_PAD: u32 = 512;
    pub const IS_LEFT: u32 = 1024;
    pub const IS_RIGHT: u32 = 2048;

    /// No flag set.
    pub fn empty() -> (f: EventFlags)
        ensures
            f.bits == 0,
    {
        EventFlags { bits: 0 }
    }

    /// Every known flag set.
    pub fn all() -> (f: EventFlags)
        ensures
            f.bits == EVENT_FLAGS_ALL,
    {
        EventFlags { bits: EVENT_FLAGS_ALL }
    }

    /// The flag bits.
    pub fn bits(&self) -> (b: u32)
        ensures
            b == self.bits,
    {
        self.bits
    }

    /// The flags whose bits are set in `bits`; unknown bits are dropped.
    pub fn from_bits_truncate(bits: u32) -> (f: EventFlags)
        ensures
            f.bits == bits & EVENT_FLAGS_ALL,
    {
        EventFlags { bits: bits & EVENT_FLAGS_ALL }
    }

    /// The flags with exactly the given bits, unknown ones included.
    pub fn from_unchecked(bits: u32) -> (f: EventFlags)
        ensures
            f.bits == bits,
    {
        EventFlags { bits }
    }

    /// Whether every bit of `flags` is set.
    pub fn contains(&self, flags: u32) -> (b: bool)
        ensures
            b == (self.bits & flags == flags),
    {
        self.bits & flags == flags
    }

    /// Sets the bits of `flags`.
    pub fn insert(&mut self, flags: u32)
        ensures
            final(self).bits == old(self).bits | flags,
    {
        self.bits = self.bits | flags;
    }

    /// Clears the bits of `flags`.
    pub fn remove(&mut self, flags: u32)
        ensures
            final(self).bits == old(self).bits & !flags,
    {
        self.bits = self.bits & !flags;
    }
}

impl Default for EventFlags {
    fn default() -> (f: EventFlags)
        ensures
            f.bits == 0,
    {
        EventFlags::empty()
    }
}

/// A Windows virtual-key code.
#[derive(Debug, Clone, Copy, PartialEq, Eq, PartialOrd, Ord, Hash)]
pub struct WindowsKeyCode(pub i32);

/// The raw values of the named Windows virtual-key codes.
impl WindowsKeyCode {
    pub const LButton: i32 = 0x01;
    pub const RButton: i32 = 0x02;
    pub const Cancel: i32 = 0x03;
    pub const MButton: i32 = 0x04;
    pub const XButton1: i32 = 0x05;
    pub const XButton2: i32 = 0x06;
    pub const Back: i32 = 0x08;
    pub const Tab: i32 = 0x09;
    pub const Clear: i32 = 0x0C;
    pub const Return: i32 = 0x0D;
    pub const Shift: i32 = 0x10;
    pub const Control: i32 = 0x11;
    pub const Menu: i32 = 0x12;
    pub const Pause: i32 = 0x13;
    pub const Capital: i32 = 0x14;
    pub const Kana: i32 = 0x15;
    pub const Junja: i32 = 0x17;
    pub const Final: i32 = 0x18;
    pub const Hanja: i32 = 0x19;
    pub const Escape: i32 = 0x1B;
    pub const Convert: i32 = 0x1C;
    pub const NonConvert: i32 = 0x1D;
    pub const Accept: i32 = 0x1E;
    pub const Modechange: i32 = 0x1F;
    pub const Space: i32 = 0x20;
    pub const Prior: i32 = 0x21;
    pub const Next: i32 = 0x22;
    pub const End: i32 = 0x23;
    pub const Home: i32 = 0x24;
    pub const Left: i32 = 0x25;
    pub const Up: i32 = 0x26;
    pub const Right: i32 = 0x27;
    pub const Down: i32 = 0x28;
    pub const Select: i32 = 0x29;
    pub const Print: i32 = 0x2A;
    pub const Execute: i32 = 0x2B;
    pub const Snapshot: i32 = 0x2C;
    pub const Insert: i32 = 0x2D;
    pub const Delete: i32 = 0x2E;
    pub const Help: i32 = 0x2F;
    pub const Key0: i32 = 0x30;
    pub const Key1: i32 = 0x31;
    pub const Key2: i32 = 0x32;
    pub const Key3: i32 = 0x33;
    pub const Key4: i32 = 0x34;
    pub const Key5: i32 = 0x35;
    pub const Key6: i32 = 0x36;
    pub const Key7: i32 = 0x37;
    pub const Key8: i32 = 0x38;
    pub const Key9: i32 = 0x39;
    pub const A: i32 = 0x41;
    pub const B: i32 = 0x42;
    pub const C: i32 = 0x43;
    pub const D: i32 = 0x44;
    pub const E: i32 = 0x45;
    pub const F: i32 = 0x46;
    pub const G: i32 = 0x47;
    pub const H: i32 = 0x48;
    pub const I: i32 = 0x49;
    pub const J: i32 = 0x4A;
    pub const K: i32 = 0x4B;
    pub const L: i32 = 0x4C;
    pub const M: i32 = 0x4D;
    pub const N: i32 = 0x4E;
    pub const O: i32 = 0x4F;
    pub const P: i32 = 0x50;
    pub const Q: i32 = 0x51;
    pub const R: i32 = 0x52;
    pub const S: i32 = 0x53;
    pub const T: i32 = 0x54;
    pub const U: i32 = 0x55;
    pub const V: i32 = 0x56;
    pub const W: i32 = 0x57;
    pub const X: i32 = 0x58;
    pub const Y: i32 = 0x59;
    pub const Z: i32 = 0x5A;
    pub const LWin: i32 = 0x5B;
    pub const RWin: i32 = 0x5C;
    pub const Apps: i32 = 0x5D;
    pub const Sleep: i32 = 0x5F;
    pub const Numpad0: i32 = 0x60;
    pub const Numpad1: i32 = 0x61;
    pub const Numpad2: i32 = 0x62;
    pub const Numpad3: i32 = 0x63;
    pub const Numpad4: i32 = 0x64;
    pub const Numpad5: i32 = 0x65;
    pub const Numpad6: i32 = 0x66;
    pub const Numpad7: i32 = 0x67;
    pub const Numpad8: i32 = 0x68;
    pub const Numpad9: i32 = 0x69;
    pub const Multiply: i32 = 0x6A;
    pub const Add: i32 = 0x6B;
    pub const Separator: i32 = 0x6C;
    pub const Subtract: i32 = 0x6D;
    pub const Decimal: i32 = 0x6E;
    pub const Divide: i32 = 0x6F;
    pub const F1: i32 = 0x70;
    pub const F2: i32 = 0x71;
    pub const F3: i32 = 0x72;
    pub const F4: i32 = 0x73;
    pub const F5: i32 = 0x74;
    pub const F6: i32 = 0x75;
    pub const F7: i32 = 0x76;
    pub const F8: i32 = 0x77;
    pub const F9: i32 = 0x78;
    pub const F10: i32 = 0x79;
    pub const F11: i32 = 0x7A;
    pub const F12: i32 = 0x7B;
    pub const F13: i32 = 0x7C;
    pub const F14: i32 = 0x7D;
    pub const F15: i32 = 0x7E;
    pub const F16: i32 = 0x7F;
    pub const F17: i32 = 0x80;
    pub const F18: i32 = 0x81;
    pub const F19: i32 = 0x82;
    pub const F20: i32 = 0x83;
    pub const F21: i32 = 0x84;
    pub const F22: i32 = 0x85;
    pub const F23: i32 = 0x86;
    pub const F24: i32 = 0x87;
    pub const NavigationView: i32 = 0x88;
    pub const NavigationMenu: i32 = 0x89;
    pub const NavigationUp: i32 = 0x8A;
    pub const NavigationDown: i32 = 0x8B;
    pub const NavigationLeft: i32 = 0x8C;
    pub const NavigationRight: i32 = 0x8D;
    pub const NavigationAccept: i32 = 0x8E;
    pub const NavigationCancel: i32 = 0x8F;
    pub const Numlock: i32 = 0x90;
    pub const Scroll: i32 = 0x91;
    pub const OemNecEqual: i32 = 0x92;
    pub const OemFjMasshou: i32 = 0x93;
    pub const OemFjTouroku: i32 = 0x94;
    pub const OemFjLoya: i32 = 0x95;
    pub const OemFjRoya: i32 = 0x96;
    pub const LShift: i32 = 0xA0;
    pub const RShift: i32 = 0xA1;
    pub const LControl: i32 = 0xA2;
    pub const RControl: i32 = 0xA3;
    pub const LMenu: i32 = 0xA4;
    pub const RMenu: i32 = 0xA5;
    pub const BrowserBack: i32 = 0xA6;
    pub const BrowserForward: i32 = 0xA7;
    pub const BrowserRefresh: i32 = 0xA8;
    pub const BrowserStop: i32 = 0xA9;
    pub const BrowserSearch: i32 = 0xAA;
    pub const BrowserFavorites: i32 = 0xAB;
    pub const BrowserHome: i32 = 0xAC;
    pub const VolumeMute: i32 = 0xAD;
    pub const VolumeDown: i32 = 0xAE;
    pub const VolumeUp: i32 = 0xAF;
    pub const MediaNextTrack: i32 = 0xB0;
    pub const MediaPrevTrack: i32 = 0xB1;
    pub const MediaStop: i32 = 0xB2;
    pub const MediaPlayPause: i32 = 0xB3;
    pub const LaunchMail: i32 = 0xB4;
    pub const LaunchMediaSelect: i32 = 0xB5;
    pub const LaunchApp1: i32 = 0xB6;
    pub const LaunchApp2: i32 = 0xB7;
    pub const Oem1: i32 = 0xBA;
    pub const OemPlus: i32 = 0xBB;
    pub const OemComma: i32 = 0xBC;
    pub const OemMinus: i32 = 0xBD;
    pub const OemPeriod: i32 = 0xBE;
    pub const Oem2: i32 = 0xBF;
    pub const Oem3: i32 = 0xC0;
    pub const GamepadA: i32 = 0xC3;
    pub const GamepadB: i32 = 0xC4;
    pub const GamepadX: i32 = 0xC5;
    pub const GamepadY: i32 = 0xC6;
    pub const GamepadRightShoulder: i32 = 0xC7;
    pub const GamepadLeftShoulder: i32 = 0xC8;
    pub const GamepadLeftTrigger: i32 = 0xC9;
    pub const GamepadRightTrigger: i32 = 0xCA;
    pub const GamepadDpadUp: i32 = 0xCB;
    pub const GamepadDpadDown: i32 = 0xCC;
    pub const GamepadDpadLeft: i32 = 0xCD;
    pub const GamepadDpadRight: i32 = 0xCE;
    pub const GamepadMenu: i32 = 0xCF;
    pub const GamepadView: i32 = 0xD0;
    pub const GamepadLeftThumbstickButton: i32 = 0xD1;
    pub const GamepadRightThumbstickButton: i32 = 0xD2;
    pub const GamepadLeftThumbstickUp: i32 = 0xD3;
    pub const GamepadLeftThumbstickDown: i32 = 0xD4;
    pub const GamepadLeftThumbstickRight: i32 = 0xD5;
    pub const GamepadLeftThumbstickLeft: i32 = 0xD6;
    pub const GamepadRightThumbstickUp: i32 = 0xD7;
    pub const GamepadRightThumbstickDown: i32 = 0xD8;
    pub const GamepadRightThumbstickRight: i32 = 0xD9;
    pub const GamepadRightThumbstickLeft: i32 = 0xDA;
    pub const Oem4: i32 = 0xDB;
    pub const Oem5: i32 = 0xDC;
    pub const Oem6: i32 = 0xDD;
    pub const Oem7: i32 = 0xDE;
    pub const Oem8: i32 = 0xDF;
    pub const OemAx: i32 = 0xE1;
    pub const Oem102: i32 = 0xE2;
    pub const IcoHelp: i32 = 0xE3;
    pub const Ico00: i32 = 0xE4;
    pub const Processkey: i32 = 0xE5;
    pub const IcoClear: i32 = 0xE6;
    pub const Packet: i32 = 0xE7;
    pub const OemReset: i32 = 0xE9;
    pub const OemJump: i32 = 0xEA;
    pub const OemPa1: i32 = 0xEB;
    pub const OemPa2: i32 = 0xEC;
    pub const OemPa3: i32 = 0xED;
    pub const OemWsctrl: i32 = 0xEE;
    pub const OemCusel: i32 = 0xEF;
    pub const OemAttn: i32 = 0xF0;
    pub const OemFinish: i32 = 0xF1;
    pub const OemCopy: i32 = 0xF2;
    pub const OemAuto: i32 = 0xF3;
    pub const OemEnlw: i32 = 0xF4;
    pub const OemBacktab: i32 = 0xF5;
    pub const Attn: i32 = 0xF6;
    pub const Crsel: i32 = 0xF7;
    pub const Exsel: i32 = 0xF8;
    pub const Ereof: i32 = 0xF9;
    pub const Play: i32 = 0xFA;
    pub const Zoom: i32 = 0xFB;
    pub const Noname: i32 = 0xFC;
    pub const Pa1: i32 = 0xFD;
    pub const OemClear: i32 = 0xFE;
    pub const Hangeul: i32 = WindowsKeyCode::Kana;
    pub const Hangul: i32 = WindowsKeyCode::Kana;
    pub const Kanji: i32 = WindowsKeyCode::Hanja;
    pub const OemFjJish: i32 = WindowsKeyCode::OemNecEqual;
}

/// Key event types.
#[derive(Debug, Clone, Copy, PartialEq, Eq)]
pub enum KeyEventType {
    /// Notification that a key transitioned from "up" to "down".
    RawKeyDown,
    /// Notification that a key was pressed. This does not necessarily correspond
    /// to a character depending on the key and language. Use [KeyEventType::Char] for
    /// character input.
    KeyDown,
    /// Notification that a key was released.
    KeyUp,
    /// Notification that a character was typed. Use this for text input. Key
    /// down events may generate 0, 1, or more than one character event depending
    /// on the key, locale, and operating system.
    Char,
}

/// The `cef_key_event_type_t` code of a value of [KeyEventType].
pub open spec fn key_event_type_code(v: KeyEventType) -> u32 {
    match v {
        KeyEventType::RawKeyDown => 0,
        KeyEventType::KeyDown => 1,
        KeyEventType::KeyUp => 2,
        KeyEventType::Char => 3,
    }
}

/// Each value of [KeyEventType] has its code from CEF's header.
pub proof fn lemma_key_event_type_codes()
    ensures
        key_event_type_code(KeyEventType::RawKeyDown) == 0,
        key_event_type_code(KeyEventType::KeyDown) == 1,
        key_event_type_code(KeyEventType::KeyUp) == 2,
        key_event_type_code(KeyEventType::Char) == 3,
{
}

impl KeyEventType {
    /// The value with a known `cef_key_event_type_t` code.
    pub fn from_unchecked(c: u32) -> (v: KeyEventType)
        requires
            c < 4,
        ensures
            key_event_type_code(v) == c,
    {
        match c {
            0 => KeyEventType::RawKeyDown,
            1 => KeyEventType::KeyDown,
            2 => KeyEventType::KeyUp,
            _ => KeyEventType::Char,
        }
    }

    /// The `cef_key_event_type_t` code of this value.
    pub fn to_raw(&self) -> (c: u32)
        ensures
            c == key_event_type_code(*self),
    {
        match self {
            KeyEventType::RawKeyDown => 0,
            KeyEventType::KeyDown => 1,
            KeyEventType::KeyUp => 2,
            KeyEventType::Char => 3,
        }
    }
}

/// The `cef_key_event_type_t` codes.
pub const KEYEVENT_RAWKEYDOWN: u32 = 0;
pub const KEYEVENT_KEYDOWN: u32 = 1;
pub const KEYEVENT_KEYUP: u32 = 2;
pub const KEYEVENT_CHAR: u32 = 3;

/// The fields of a `cef_key_event_t`.
#[derive(Debug, Clone, Copy, PartialEq, Eq, Hash)]
pub struct RawKeyEvent {
    pub type_: u32,
    pub modifiers: u32,
    pub windows_key_code: i32,
    pub native_key_code: i32,
    pub is_system_key: i32,
    pub character: u16,
    pub unmodified_character: u16,
    pub focus_on_editable_field: i32,
}

/// A keyboard event.
#[derive(Debug, Clone, Copy, PartialEq, Eq, Hash)]
pub enum KeyEvent {
    KeyDown {
        /// Bit flags describing any pressed modifier keys.
        modifiers: EventFlags,
        windows_key_code: WindowsKeyCode,
        is_system_key: bool,
        focus_on_editable_field: bool,
    },
    KeyUp {
        /// Bit flags describing any pressed modifier keys.
        modifiers: EventFlags,
        windows_key_code: WindowsKeyCode,
        is_system_key: bool,
        focus_on_editable_field: bool,
    },
    Char {
        modifiers: EventFlags,
        char: char,
    },
}

/// Whether a number is a Unicode scalar value, that is, the code of a `char`.
pub open spec fn is_scalar_value(c: u32) -> bool {
    c <= 0xD7FF || (0xE000 <= c && c <= 0x10FFFF)
}

/// The CEF record of a key event: the event type, modifier bits, key code (the
/// character's code for a character event) and C booleans; other fields 0.
pub open spec fn raw_of_key_event(event: KeyEvent) -> RawKeyEvent {
    match event {
        KeyEvent::KeyDown { modifiers, windows_key_code, is_system_key, focus_on_editable_field } => RawKeyEvent {
            type_: KEYEVENT_KEYDOWN,
            modifiers: modifiers.bits,
            windows_key_code: windows_key_code.0,
            native_key_code: 0,
            is_system_key: c_bool(is_system_key),
            character: 0,
            unmodified_character: 0,
            focus_on_editable_field: c_bool(focus_on_editable_field),
        },
        KeyEvent::KeyUp { modifiers, windows_key_code, is_system_key, focus_on_editable_field } => RawKeyEvent {
            type_: KEYEVENT_KEYUP,
            modifiers: modifiers.bits,
            windows_key_code: windows_key_code.0,
            native_key_code: 0,
            is_system_key: c_bool(is_system_key),
            character: 0,
            unmodified_character: 0,
            focus_on_editable_field: c_bool(focus_on_editable_field),
        },
        KeyEvent::Char { modifiers, char } => RawKeyEvent {
            type_: KEYEVENT_CHAR,
            modifiers: modifiers.bits,
            windows_key_code: char as i32,
            native_key_code: 0,
            is_system_key: 0,
            character: 0,
            unmodified_character: 0,
            focus_on_editable_field: 0,
        },
    }
}

/// Whether the event that a CEF key event record describes carries these
/// values: raw and ordinary key-downs both read as key-downs, unknown modifier
/// bits are dropped, and a character event whose code is not a `char` reads
/// as the NUL character.
pub open spec fn key_event_of_raw(raw: RawKeyEvent) -> KeyEvent {
    let modifiers_bits = raw.modifiers & EVENT_FLAGS_ALL;
    if raw.type_ == KEYEVENT_RAWKEYDOWN || raw.type_ == KEYEVENT_KEYDOWN {
        KeyEvent::KeyDown {
            modifiers: EventFlags { bits: modifiers_bits },
            windows_key_code: WindowsKeyCode(raw.windows_key_code),
            is_system_key: raw.is_system_key != 0,
            focus_on_editable_field: raw.focus_on_editable_field != 0,
        }
    } else if raw.type_ == KEYEVENT_KEYUP {
        KeyEvent::KeyUp {
            modifiers: EventFlags { bits: modifiers_bits },
            windows_key_code: WindowsKeyCode(raw.windows_key_code),
            is_system_key: raw.is_system_key != 0,
            focus_on_editable_field: raw.focus_on_editable_field != 0,
        }
    } else {
        KeyEvent::Char {
            modifiers: EventFlags { bits: modifiers_bits },
            char: if is_scalar_value(raw.windows_key_code as u32) { (raw.windows_key_code as u32) as char } else { '\0' },
        }
    }
}

/// `char::from_u32`: the `char` with the given code, or `None` where the
/// number is not a Unicode scalar value. The standard library documents
/// exactly this.
#[verifier::external_body]
fn char_from_u32(code: u32) -> (c: Option<char>)
    ensures
        c == (if is_scalar_value(code) { Some(code as char) } else { None }),
{
    char::from_u32(code)
}

impl KeyEvent {
    /// The CEF record of this event.
    pub fn as_cef(&self) -> (raw: RawKeyEvent)
        ensures
            raw == raw_of_key_event(*self),
    {
        match *self {
            KeyEvent::KeyDown { modifiers, windows_key_code, is_system_key, focus_on_editable_field } => RawKeyEvent {
                type_: KEYEVENT_KEYDOWN,
                modifiers: modifiers.bits(),
                windows_key_code: windows_key_code.0,
                native_key_code: 0,
                is_system_key: if is_system_key { 1 } else { 0 },
                character: 0,
                unmodified_character: 0,
                focus_on_editable_field: if focus_on_editable_field { 1 } else { 0 },
            },
            KeyEvent::KeyUp { modifiers, windows_key_code, is_system_key, focus_on_editable_field } => RawKeyEvent {
                type_: KEYEVENT_KEYUP,
                modifiers: modifiers.bits(),
                windows_key_code: windows_key_code.0,
                native_key_code: 0,
                is_system_key: if is_system_key { 1 } else { 0 },
                character: 0,
                unmodified_character: 0,
                focus_on_editable_field: if focus_on_editable_field { 1 } else { 0 },
            },
            KeyEvent::Char { modifiers, char } => RawKeyEvent {
                type_: KEYEVENT_CHAR,
                modifiers: modifiers.bits(),
                windows_key_code: char as i32,
                native_key_code: 0,
                is_system_key: 0,
                character: 0,
                unmodified_character: 0,
                focus_on_editable_field: 0,
            },
        }
    }

    /// The event that a CEF key event record describes; its type must be one
    /// of the four known key event types.
    pub fn from_raw(event: RawKeyEvent) -> (e: KeyEvent)
        requires
            event.type_ <= KEYEVENT_CHAR,
        ensures
            e == key_event_of_raw(event),
    {
        let modifiers = EventFlags::from_bits_truncate(event.modifiers);
        if event.type_ == KEYEVENT_RAWKEYDOWN || event.type_ == KEYEVENT_KEYDOWN {
            KeyEvent::KeyDown {
                modifiers,
                windows_key_code: WindowsKeyCode(event.windows_key_code),
                is_system_key: event.is_system_key != 0,
                focus_on_editable_field: event.focus_on_editable_field != 0,
            }
        } else if event.type_ == KEYEVENT_KEYUP {
            KeyEvent::KeyUp {
                modifiers,
                windows_key_code: WindowsKeyCode(event.windows_key_code),
                is_system_key: event.is_system_key != 0,
                focus_on_editable_field: event.focus_on_editable_field != 0,
            }
        } else {
            let c = match char_from_u32(event.windows_key_code as u32) {
                Some(c) => c,
                None => '\0',
            };
            KeyEvent::Char { modifiers, char: c }
        }
    }
}

/// The modifier bits of a key event.
pub open spec fn key_event_modifiers(event: KeyEvent) -> u32 {
    match event {
        KeyEvent::KeyDown { modifiers, .. } => modifiers.bits,
        KeyEvent::KeyUp { modifiers, .. } => modifiers.bits,
        KeyEvent::Char { modifiers, .. } => modifiers.bits,
    }
}

/// Reading back the CEF record of a key event gives the same event, as long
/// Writing a key event fills each field of the CEF record from the value of
/// the same name: key-downs have type 1 and key-ups type 2, each with their
/// modifier bits, key code and two C booleans; a character event has type 3
/// and its character's code as key code. Reading takes each value from the
/// field of the same name: types 0 and 1 read as key-downs, 2 as key-ups, and
/// the key code, flags and known modifier bits come from their own fields.
pub proof fn lemma_key_event_fields(event: KeyEvent, raw: RawKeyEvent)
    ensures
        event matches KeyEvent::KeyDown { modifiers, windows_key_code, is_system_key, focus_on_editable_field } ==> {
            &&& raw_of_key_event(event).type_ == 1
            &&& raw_of_key_event(event).modifiers == modifiers.bits
            &&& raw_of_key_event(event).windows_key_code == windows_key_code.0
            &&& raw_of_key_event(event).is_system_key == c_bool(is_system_key)
            &&& raw_of_key_event(event).focus_on_editable_field == c_bool(focus_on_editable_field)
        },
        event matches KeyEvent::KeyUp { modifiers, windows_key_code, is_system_key, focus_on_editable_field } ==> {
            &&& raw_of_key_event(event).type_ == 2
            &&& raw_of_key_event(event).modifiers == modifiers.bits
            &&& raw_of_key_event(event).windows_key_code == windows_key_code.0
            &&& raw_of_key_event(event).is_system_key == c_bool(is_system_key)
            &&& raw_of_key_event(event).focus_on_editable_field == c_bool(focus_on_editable_field)
        },
        event matches KeyEvent::Char { modifiers, char } ==> {
            &&& raw_of_key_event(event).type_ == 3
            &&& raw_of_key_event(event).modifiers == modifiers.bits
            &&& raw_of_key_event(event).windows_key_code == char as i32
        },
        raw.type_ == 0 || raw.type_ == 1 ==> key_event_of_raw(raw) == (KeyEvent::KeyDown {
            modifiers: EventFlags { bits: raw.modifiers & EVENT_FLAGS_ALL },
            windows_key_code: WindowsKeyCode(raw.windows_key_code),
            is_system_key: raw.is_system_key != 0,
            focus_on_editable_field: raw.focus_on_editable_field != 0,
        }),
        raw.type_ == 2 ==> key_event_of_raw(raw) == (KeyEvent::KeyUp {
            modifiers: EventFlags { bits: raw.modifiers & EVENT_FLAGS_ALL },
            windows_key_code: WindowsKeyCode(raw.windows_key_code),
            is_system_key: raw.is_system_key != 0,
            focus_on_editable_field: raw.focus_on_editable_field != 0,
        }),
        raw.type_ == 3 ==> (key_event_of_raw(raw) is Char),
        raw.type_ == 3 ==> (key_event_of_raw(raw)->Char_modifiers).bits == raw.modifiers & EVENT_FLAGS_ALL,
{
}

/// as its modifiers hold only known flags.
pub proof fn lemma_key_event_round_trip(event: KeyEvent)
    requires
        key_event_modifiers(event) & !EVENT_FLAGS_ALL == 0,
    ensures
        key_event_of_raw(raw_of_key_event(event)) == event,
{
    let m = key_event_modifiers(event);
    assert(m & EVENT_FLAGS_ALL == m) by (bit_vector)
        requires m & !EVENT_FLAGS_ALL == 0;
    match event {
        KeyEvent::Char { modifiers, char } => {
            assert(is_scalar_value((char as i32) as u32));
            assert(((char as i32) as u32) as char == char);
        },
        _ => {},
    }
}

/// Mouse button types.
#[derive(PartialEq, Eq, Clone, Copy, Debug)]
pub enum MouseButtonType {
    Left,
    Middle,
    Right,
}

/// The `cef_mouse_button_type_t` code of a mouse button.
pub open spec fn mouse_button_code(b: MouseButtonType) -> u32 {
    match b {
        MouseButtonType::Left => 0,
        MouseButtonType::Middle => 1,
        MouseButtonType::Right => 2,
    }
}

/// Each value of [MouseButtonType] has its code from CEF's header.
pub proof fn lemma_mouse_button_codes()
    ensures
        mouse_button_code(MouseButtonType::Left) == 0,
        mouse_button_code(MouseButtonType::Middle) == 1,
        mouse_button_code(MouseButtonType::Right) == 2,
{
}

impl MouseButtonType {
    /// The button with a known `cef_mouse_button_type_t` code.
    pub fn from_unchecked(c: u32) -> (b: MouseButtonType)
        requires
            c <= 2,
        ensures
            mouse_button_code(b) == c,
    {
        match c {
            0 => MouseButtonType::Left,
            1 => MouseButtonType::Middle,
            _ => MouseButtonType::Right,
        }
    }

    /// The `cef_mouse_button_type_t` code of this button.
    pub fn to_raw(&self) -> (c: u32)
        ensures
            c == mouse_button_code(*self),
    {
        match self {
            MouseButtonType::Left => 0,
            MouseButtonType::Middle => 1,
            MouseButtonType::Right => 2,
        }
    }
}

/// Structure representing mouse event information.
#[derive(Default, Debug, Clone, Copy, PartialEq, Eq)]
pub struct MouseEvent {
    pub x: i32,
    pub y: i32,
    pub modifiers: EventFlags,
}

/// The fields of a `cef_mouse_event_t`.
#[derive(Default, Debug, Clone, Copy, PartialEq, Eq)]
pub struct RawMouseEvent {
    pub x: i32,
    pub y: i32,
    pub modifiers: u32,
}

impl MouseEvent {
    /// The CEF record of this mouse event.
    pub fn as_cef(&self) -> (raw: RawMouseEvent)
        ensures
            raw == (RawMouseEvent { x: self.x, y: self.y, modifiers: self.modifiers.bits }),
    {
        RawMouseEvent { x: self.x, y: self.y, modifiers: self.modifiers.bits() }
    }
}

/// Touch event types.
#[derive(Debug, Clone, Copy, PartialEq, Eq, Hash)]
pub enum TouchEventType {
    Released,
    Pressed,
    Moved,
    Cancelled,
}

/// The `cef_touch_event_type_t` code of a touch event type.
pub open spec fn touch_event_type_code(t: TouchEventType) -> u32 {
    match t {
        TouchEventType::Released => 0,
        TouchEventType::Pressed => 1,
        TouchEventType::Moved => 2,
        TouchEventType::Cancelled => 3,
    }
}

/// Each value of [TouchEventType] has its code from CEF's header.
pub proof fn lemma_touch_event_type_codes()
    ensures
        touch_event_type_code(TouchEventType::Released) == 0,
        touch_event_type_code(TouchEventType::Pressed) == 1,
        touch_event_type_code(TouchEventType::Moved) == 2,
        touch_event_type_code(TouchEventType::Cancelled) == 3,
{
}

impl TouchEventType {
    /// The touch event type with a known `cef_touch_event_type_t` code.
    pub fn from_unchecked(i: u32) -> (t: TouchEventType)
        requires
            i <= 3,
        ensures
            touch_event_type_code(t) == i,
    {
        match i {
            0 => TouchEventType::Released,
            1 => TouchEventType::Pressed,
            2 => TouchEventType::Moved,
            _ => TouchEventType::Cancelled,
        }
    }
}

/// The device type that caused the event.
#[derive(Debug, Clone, Copy, PartialEq, Eq, Hash)]
pub enum PointerType {
    Touch,
    Mouse,
    Pen,
    Eraser,
    Unknown,
}

/// The `cef_pointer_type_t` code of a pointer type.
pub open spec fn pointer_type_code(t: PointerType) -> u32 {
    match t {
        PointerType::Touch => 0,
        PointerType::Mouse => 1,
        PointerType::Pen => 2,
        PointerType::Eraser => 3,
        PointerType::Unknown => 4,
    }
}

/// Each value of [PointerType] has its code from CEF's header.
pub proof fn lemma_pointer_type_codes()
    ensures
        pointer_type_code(PointerType::Touch) == 0,
        pointer_type_code(PointerType::Mouse) == 1,
        pointer_type_code(PointerType::Pen) == 2,
        pointer_type_code(PointerType::Eraser) == 3,
        pointer_type_code(PointerType::Unknown) == 4,
{
}

impl PointerType {
    /// The pointer type with a known `cef_pointer_type_t` code.
    pub fn from_unchecked(i: u32) -> (t: PointerType)
        requires
            i <= 4,
        ensures
            pointer_type_code(t) == i,
    {
        match i {
            0 => PointerType::Touch,
            1 => PointerType::Mouse,
            2 => PointerType::Pen,
            3 => PointerType::Eraser,
            _ => PointerType::Unknown,
        }
    }
}

} // verus!
