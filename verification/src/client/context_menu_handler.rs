use vstd::prelude::*;
use crate::color::Color;
use crate::values::c_bool;

verus! {

/// Identifier of a menu command, as CEF passes it.
#[derive(Debug, Clone, Copy, PartialEq, Eq, Hash)]
pub struct CommandId(i32);

/// Identifier of a group of radio menu items, as CEF passes it.
#[derive(Debug, Clone, Copy, PartialEq, Eq, Hash)]
pub struct GroupId(i32);

impl View for CommandId {
    type V = i32;

    closed spec fn view(&self) -> i32 {
        self.0
    }
}

impl View for GroupId {
    type V = i32;

    closed spec fn view(&self) -> i32 {
        self.0
    }
}

impl CommandId {
    /// The raw command id.
    pub fn get(self) -> (raw: i32)
        ensures
            raw == self@,
    {
        self.0
    }

    /// The command id with the given raw value, or `None` where CEF uses a
    /// negative value to say that there is none.
    pub fn new(raw: i32) -> (id: Option<CommandId>)
        ensures
            id is Some <==> raw >= 0,
            id matches Some(i) ==> i@ == raw,
    {
        if raw < 0 {
            None
        } else {
            Some(CommandId(raw))
        }
    }

    /// The command id with a raw value that CEF reported as valid.
    pub fn from_unchecked(raw: i32) -> (id: CommandId)
        ensures
            id@ == raw,
    {
        CommandId(raw)
    }
}

impl GroupId {
    /// The raw group id.
    pub fn get(self) -> (raw: i32)
        ensures
            raw == self@,
    {
        self.0
    }

    /// The group id with the given raw value, or `None` where CEF uses a
    /// negative value to say that there is none.
    pub fn new(raw: i32) -> (id: Option<GroupId>)
        ensures
            id is Some <==> raw >= 0,
            id matches Some(i) ==> i@ == raw,
    {
        if raw < 0 {
            None
        } else {
            Some(GroupId(raw))
        }
    }

    /// The group id with a raw value that CEF reported as valid.
    pub fn from_unchecked(raw: i32) -> (id: GroupId)
        ensures
            id@ == raw,
    {
        GroupId(raw)
    }
}

/// Supported color types for menu items.
#[derive(PartialEq, Eq, Clone, Copy, Debug)]
pub enum MenuColorType {
    Text,
    TextHovered,
    TextAccelerator,
    TextAcceleratorHovered,
    Background,
    BackgroundHovered,
    Count,
}

/// The `cef_menu_color_type_t` code of a menu color type.
pub open spec fn menu_color_type_code(t: MenuColorType) -> u32 {
    match t {
        MenuColorType::Text => 0,
        MenuColorType::TextHovered => 1,
        MenuColorType::TextAccelerator => 2,
        MenuColorType::TextAcceleratorHovered => 3,
        MenuColorType::Background => 4,
        MenuColorType::BackgroundHovered => 5,
        MenuColorType::Count => 6,
    }
}

/// Each value of [MenuColorType] has its code from CEF's header.
pub proof fn lemma_menu_color_type_codes()
    ensures
        menu_color_type_code(MenuColorType::Text) == 0,
        menu_color_type_code(MenuColorType::TextHovered) == 1,
        menu_color_type_code(MenuColorType::TextAccelerator) == 2,
        menu_color_type_code(MenuColorType::TextAcceleratorHovered) == 3,
        menu_color_type_code(MenuColorType::Background) == 4,
        menu_color_type_code(MenuColorType::BackgroundHovered) == 5,
        menu_color_type_code(MenuColorType::Count) == 6,
{
}

impl MenuColorType {
    /// The color type with a known `cef_menu_color_type_t` code.
    pub fn from_unchecked(raw: u32) -> (t: MenuColorType)
        requires
            raw <= 6,
        ensures
            menu_color_type_code(t) == raw,
    {
        match raw {
            0 => MenuColorType::Text,
            1 => MenuColorType::TextHovered,
            2 => MenuColorType::TextAccelerator,
            3 => MenuColorType::TextAcceleratorHovered,
            4 => MenuColorType::Background,
            5 => MenuColorType::BackgroundHovered,
            _ => MenuColorType::Count,
        }
    }

    /// The `cef_menu_color_type_t` code of this color type.
    pub fn to_raw(&self) -> (raw: u32)
        ensures
            raw == menu_color_type_code(*self),
    {
        match self {
            MenuColorType::Text => 0,
            MenuColorType::TextHovered => 1,
            MenuColorType::TextAccelerator => 2,
            MenuColorType::TextAcceleratorHovered => 3,
            MenuColorType::Background => 4,
            MenuColorType::BackgroundHovered => 5,
            MenuColorType::Count => 6,
        }
    }
}

/// Supported menu item types.
#[derive(PartialEq, Eq, Clone, Copy, Debug)]
pub enum MenuItemType {
    NoItem,
    Command,
    Check,
    Radio,
    Separator,
    Submenu,
}

/// The `cef_menu_item_type_t` code of a menu item type.
pub open spec fn menu_item_type_code(t: MenuItemType) -> u32 {
    match t {
        MenuItemType::NoItem => 0,
        MenuItemType::Command => 1,
        MenuItemType::Check => 2,
        MenuItemType::Radio => 3,
        MenuItemType::Separator => 4,
        MenuItemType::Submenu => 5,
    }
}

/// Each value of [MenuItemType] has its code from CEF's header.
pub proof fn lemma_menu_item_type_codes()
    ensures
        menu_item_type_code(MenuItemType::NoItem) == 0,
        menu_item_type_code(MenuItemType::Command) == 1,
        menu_item_type_code(MenuItemType::Check) == 2,
        menu_item_type_code(MenuItemType::Radio) == 3,
        menu_item_type_code(MenuItemType::Separator) == 4,
        menu_item_type_code(MenuItemType::Submenu) == 5,
{
}

impl MenuItemType {
    /// The item type with a known `cef_menu_item_type_t` code.
    pub fn from_unchecked(raw: u32) -> (t: MenuItemType)
        requires
            raw <= 5,
        ensures
            menu_item_type_code(t) == raw,
    {
        match raw {
            0 => MenuItemType::NoItem,
            1 => MenuItemType::Command,
            2 => MenuItemType::Check,
            3 => MenuItemType::Radio,
            4 => MenuItemType::Separator,
            _ => MenuItemType::Submenu,
        }
    }
}

/// Keyboard modifiers of an accelerator, as bits: shift, control, alt.
#[derive(Debug, Clone, Copy, PartialEq, Eq, Hash)]
pub struct Modifiers {
    bits: u8,
}

impl View for Modifiers {
    type V = u8;

    closed spec fn view(&self) -> u8 {
        self.bits
    }
}

/// Whether the modifier bit `flag` is set in `bits`.
pub open spec fn has_modifier(bits: u8, flag: u8) -> bool {
    bits & flag == flag
}

impl Modifiers {
    /// Only the shift, control and alt bits are ever set.
    #[verifier::type_invariant]
    spec fn only_known_bits(self) -> bool {
        self.bits < 8
    }

    pub const SHIFT: u8 = 1;
    pub const CTRL: u8 = 2;
    pub const ALT: u8 = 4;

    /// No modifier.
    pub fn empty() -> (m: Modifiers)
        ensures
            m@ == 0,
            m@ < 8,
    {
        Modifiers { bits: 0 }
    }

    /// The modifier bits.
    pub fn bits(&self) -> (b: u8)
        ensures
            b == self@,
            b < 8,
    {
        proof {
            use_type_invariant(self);
        }
        self.bits
    }

    /// The modifiers whose bits are set in `bits`; other bits are dropped.
    pub fn from_bits_truncate(bits: u8) -> (m: Modifiers)
        ensures
            m@ == bits & 7,
            m@ < 8,
    {
        assert(bits & 7 < 8) by (bit_vector);
        Modifiers { bits: bits & 7 }
    }

    /// Whether every bit of `flag` is set.
    pub fn contains(&self, flag: u8) -> (b: bool)
        ensures
            b == has_modifier(self@, flag),
    {
        self.bits & flag == flag
    }

    /// Sets the bits of `flag` where `value` holds, clears them otherwise.
    /// `flag` holds only modifier bits.
    pub fn set(&mut self, flag: u8, value: bool)
        requires
            flag < 8,
        ensures
            final(self)@ == (if value { old(self)@ | flag } else { old(self)@ & !flag }),
            final(self)@ < 8,
    {
        proof {
            use_type_invariant(&*self);
        }
        let ghost b = self.bits;
        assert((b | flag) < 8 && (b & !flag) < 8) by (bit_vector)
            requires
                b < 8,
                flag < 8;
        if value {
            self.bits = self.bits | flag;
        } else {
            self.bits = self.bits & !flag;
        }
    }
}

/// A keyboard accelerator: a key code and the modifiers held with it.
#[derive(Debug, Clone, Copy, PartialEq, Eq, Hash)]
pub struct Accelerator {
    pub key: i32,
    pub modifiers: Modifiers,
}

proof fn lemma_modifier_bits_determined(m: u8, n: u8)
    requires
        m < 8,
        n < 8,
        has_modifier(m, 1) == has_modifier(n, 1),
        has_modifier(m, 2) == has_modifier(n, 2),
        has_modifier(m, 4) == has_modifier(n, 4),
    ensures
        m == n,
{
    assert(m == n) by (bit_vector)
        requires
            m < 8,
            n < 8,
            (m & 1 == 1) == (n & 1 == 1),
            (m & 2 == 2) == (n & 2 == 2),
            (m & 4 == 4) == (n & 4 == 4);
}

/// `a` is the accelerator described by a key code and three C booleans for
/// shift, control and alt.
pub open spec fn accelerator_describes(a: Accelerator, raw: (i32, i32, i32, i32)) -> bool {
    &&& a.key == raw.0
    &&& a.modifiers@ < 8
    &&& has_modifier(a.modifiers@, Modifiers::SHIFT) == (raw.1 != 0)
    &&& has_modifier(a.modifiers@, Modifiers::CTRL) == (raw.2 != 0)
    &&& has_modifier(a.modifiers@, Modifiers::ALT) == (raw.3 != 0)
}

/// The key code and the three C booleans (shift, control, alt) of an
/// accelerator.
pub open spec fn raw_of_accelerator(a: Accelerator) -> (i32, i32, i32, i32) {
    (
        a.key,
        c_bool(has_modifier(a.modifiers@, Modifiers::SHIFT)),
        c_bool(has_modifier(a.modifiers@, Modifiers::CTRL)),
        c_bool(has_modifier(a.modifiers@, Modifiers::ALT)),
    )
}

impl Accelerator {
    /// The accelerator that CEF reports: a key code and three C booleans for
    /// shift, control and alt.
    pub fn from_raw(key: i32, shift_pressed: i32, ctrl_pressed: i32, alt_pressed: i32) -> (a: Accelerator)
        ensures
            accelerator_describes(a, (key, shift_pressed, ctrl_pressed, alt_pressed)),
    {
        let mut modifiers = Modifiers::empty();
        modifiers.set(Modifiers::SHIFT, shift_pressed != 0);
        modifiers.set(Modifiers::CTRL, ctrl_pressed != 0);
        modifiers.set(Modifiers::ALT, alt_pressed != 0);
        let ghost b = modifiers@;
        assert(b < 8 && has_modifier(b, 1) == (shift_pressed != 0) && has_modifier(b, 2) == (ctrl_pressed != 0)
            && has_modifier(b, 4) == (alt_pressed != 0)) by {
            let s = shift_pressed != 0;
            let c = ctrl_pressed != 0;
            let al = alt_pressed != 0;
            let b1: u8 = if s { 0u8 | 1u8 } else { 0u8 & !1u8 };
            let b2: u8 = if c { b1 | 2u8 } else { b1 & !2u8 };
            let b3: u8 = if al { b2 | 4u8 } else { b2 & !4u8 };
            assert(b3 < 8 && (b3 & 1 == 1) == s && (b3 & 2 == 2) == c && (b3 & 4 == 4) == al) by (bit_vector)
                requires
                    b1 == (if s { 0u8 | 1u8 } else { 0u8 & !1u8 }),
                    b2 == (if c { b1 | 2u8 } else { b1 & !2u8 }),
                    b3 == (if al { b2 | 4u8 } else { b2 & !4u8 });
        }
        Accelerator { key, modifiers }
    }

    /// The key code and the three C booleans (shift, control, alt) of this
    /// accelerator.
    pub fn to_raw(self) -> (raw: (i32, i32, i32, i32))
        ensures
            raw == raw_of_accelerator(self),
    {
        (
            self.key,
            if self.modifiers.contains(Modifiers::SHIFT) { 1 } else { 0 },
            if self.modifiers.contains(Modifiers::CTRL) { 1 } else { 0 },
            if self.modifiers.contains(Modifiers::ALT) { 1 } else { 0 },
        )
    }

    /// Writes the key code and the three C booleans (shift, control, alt) of
    /// this accelerator to the given places.
    pub fn set_raw(self, key: &mut i32, shift_pressed: &mut i32, ctrl_pressed: &mut i32, alt_pressed: &mut i32)
        ensures
            (*final(key), *final(shift_pressed), *final(ctrl_pressed), *final(alt_pressed)) == raw_of_accelerator(self),
    {
        let raw = self.to_raw();
        *key = raw.0;
        *shift_pressed = raw.1;
        *ctrl_pressed = raw.2;
        *alt_pressed = raw.3;
    }
}

/// The raw form of an accelerator is its key code followed by the C booleans
/// of the shift bit (1), the control bit (2) and the alt bit (4), in that
/// order; reading takes the key code and each modifier from its own field.
pub proof fn lemma_accelerator_fields(a: Accelerator, raw: (i32, i32, i32, i32), b: Accelerator)
    requires
        accelerator_describes(b, raw),
    ensures
        Modifiers::SHIFT == 1 && Modifiers::CTRL == 2 && Modifiers::ALT == 4,
        raw_of_accelerator(a).0 == a.key,
        raw_of_accelerator(a).1 == (if a.modifiers@ & 1 == 1 { 1i32 } else { 0i32 }),
        raw_of_accelerator(a).2 == (if a.modifiers@ & 2 == 2 { 1i32 } else { 0i32 }),
        raw_of_accelerator(a).3 == (if a.modifiers@ & 4 == 4 { 1i32 } else { 0i32 }),
        b.key == raw.0,
        (b.modifiers@ & 1 == 1) == (raw.1 != 0),
        (b.modifiers@ & 2 == 2) == (raw.2 != 0),
        (b.modifiers@ & 4 == 4) == (raw.3 != 0),
{
}

/// Reading back the raw form of an accelerator gives the same accelerator.
/// Its modifiers hold only the three known bits, as the type invariant of
/// [Modifiers] keeps for every value built at run time (see
/// [Modifiers::bits]).
pub proof fn lemma_accelerator_round_trip(a: Accelerator, back: Accelerator)
    requires
        a.modifiers@ < 8,
        accelerator_describes(back, raw_of_accelerator(a)),
    ensures
        back == a,
{
    lemma_modifier_bits_determined(a.modifiers@, back.modifiers@);
    assert(back.modifiers == a.modifiers);
}

/// Writing back an accelerator read from raw values gives the same key code
/// and each flag as a C boolean (0 or 1).
pub proof fn lemma_accelerator_raw_normalized(raw: (i32, i32, i32, i32), a: Accelerator)
    requires
        accelerator_describes(a, raw),
    ensures
        raw_of_accelerator(a) == (raw.0, c_bool(raw.1 != 0), c_bool(raw.2 != 0), c_bool(raw.3 != 0)),
{
}

/// The menu index that CEF reports, or `None` where it reports -1 (or any
/// negative value) for "not found".
pub fn index_from_raw(raw: i32) -> (index: Option<usize>)
    ensures
        index is Some <==> raw >= 0,
        index matches Some(i) ==> i == raw,
{
    if raw >= 0 {
        Some(raw as usize)
    } else {
        None
    }
}

/// The C int form of a menu index, which must fit in an `i32`.
pub fn index_to_raw(index: usize) -> (raw: i32)
    requires
        index <= i32::MAX,
    ensures
        raw == index,
{
    index as i32
}

/// The accelerator of a menu item, where CEF reported one.
pub fn accelerator_result(has_accelerator: bool, key: i32, shift_pressed: i32, ctrl_pressed: i32, alt_pressed: i32) -> (a: Option<Accelerator>)
    ensures
        a is Some <==> has_accelerator,
        a matches Some(acc) ==> accelerator_describes(acc, (key, shift_pressed, ctrl_pressed, alt_pressed)),
{
    if has_accelerator {
        Some(Accelerator::from_raw(key, shift_pressed, ctrl_pressed, alt_pressed))
    } else {
        None
    }
}

/// The explicitly set color of a menu item, where CEF reported one.
pub fn color_result(has_color: bool, color: u32) -> (c: Option<Color>)
    ensures
        c == (if has_color { Some(Color(color)) } else { None }),
{
    if has_color {
        Some(Color::wrap(color))
    } else {
        None
    }
}

/// The bits of all known [ContextMenuTypeFlags] flags.
pub const CONTEXT_MENU_TYPE_FLAGS_ALL: i32 = 0x3F;

/// Supported context menu type flags.
#[derive(Debug, Clone, Copy, PartialEq, Eq, Hash)]
pub struct ContextMenuTypeFlags {
    pub bits: i32,
}

impl ContextMenuTypeFlags {
    /// No node is selected.
    pub const NONE: i32 = 0;
    /// The top page is selected.
    pub const PAGE: i32 = 1;
    /// A subframe page is selected.
    pub const FRAME: i32 = 2;
    /// A link is selected.
    pub const LINK: i32 = 4;
    /// A media node is selected.
    pub const MEDIA: i32 = 8;
    /// There is a textual or mixed selection that is selected.
    pub const SELECTION: i32 = 16;
    /// An editable element is selected.
    pub const EDITABLE: i32 = 32;

    /// The flags whose bits are set in `bits`; unknown bits are dropped.
    pub fn from_bits_truncate(bits: i32) -> (f: ContextMenuTypeFlags)
        ensures
            f.bits == bits & CONTEXT_MENU_TYPE_FLAGS_ALL,
    {
        ContextMenuTypeFlags { bits: bits & CONTEXT_MENU_TYPE_FLAGS_ALL }
    }

    /// The flag bits.
    pub fn bits(&self) -> (b: i32)
        ensures
            b == self.bits,
    {
        self.bits
    }

    /// Whether every bit of `flags` is set.
    pub fn contains(&self, flags: i32) -> (b: bool)
        ensures
            b == (self.bits & flags == flags),
    {
        self.bits & flags == flags
    }
}

/// The bits of all known [ContextMenuMediaStateFlags] flags.
pub const CONTEXT_MENU_MEDIA_STATE_FLAGS_ALL: i32 = 0x3FF;

/// Supported context menu media state bit flags.
#[derive(Debug, Clone, Copy, PartialEq, Eq, Hash)]
pub struct ContextMenuMediaStateFlags {
    pub bits: i32,
}

impl ContextMenuMediaStateFlags {
    pub const NONE: i32 = 0;
    pub const ERROR: i32 = 1;
    pub const PAUSED: i32 = 2;
    pub const MUTED: i32 = 4;
    pub const LOOP: i32 = 8;
    pub const CAN_SAVE: i32 = 16;
    pub const HAS_AUDIO: i32 = 32;
    pub const HAS_VIDEO: i32 = 64;
    pub const CONTROL_ROOT_ELEMENT: i32 = 128;
    pub const CAN_PRINT: i32 = 256;
    pub const CAN_ROTATE: i32 = 512;

    /// The flags whose bits are set in `bits`; unknown bits are dropped.
    pub fn from_bits_truncate(bits: i32) -> (f: ContextMenuMediaStateFlags)
        ensures
            f.bits == bits & CONTEXT_MENU_MEDIA_STATE_FLAGS_ALL,
    {
        ContextMenuMediaStateFlags { bits: bits & CONTEXT_MENU_MEDIA_STATE_FLAGS_ALL }
    }

    /// The flag bits.
    pub fn bits(&self) -> (b: i32)
        ensures
            b == self.bits,
    {
        self.bits
    }

    /// Whether every bit of `flags` is set.
    pub fn contains(&self, flags: i32) -> (b: bool)
        ensures
            b == (self.bits & flags == flags),
    {
        self.bits & flags == flags
    }
}

/// The bits of all known [ContextMenuEditStateFlags] flags.
pub const CONTEXT_MENU_EDIT_STATE_FLAGS_ALL: i32 = 0xFF;

/// Supported context menu edit state bit flags.
#[derive(Debug, Clone, Copy, PartialEq, Eq, Hash)]
pub struct ContextMenuEditStateFlags {
    pub bits: i32,
}

impl ContextMenuEditStateFlags {
    pub const NONE: i32 = 0;
    pub const CAN_UNDO: i32 = 1;
    pub const CAN_REDO: i32 = 2;
    pub const CAN_CUT: i32 = 4;
    pub const CAN_COPY: i32 = 8;
    pub const CAN_PASTE: i32 = 16;
    pub const CAN_DELETE: i32 = 32;
    pub const CAN_SELECT_ALL: i32 = 64;
    pub const CAN_TRANSLATE: i32 = 128;

    /// The flags whose bits are set in `bits`; unknown bits are dropped.
    pub fn from_bits_truncate(bits: i32) -> (f: ContextMenuEditStateFlags)
        ensures
            f.bits == bits & CONTEXT_MENU_EDIT_STATE_FLAGS_ALL,
    {
        ContextMenuEditStateFlags { bits: bits & CONTEXT_MENU_EDIT_STATE_FLAGS_ALL }
    }

    /// The flag bits.
    pub fn bits(&self) -> (b: i32)
        ensures
            b == self.bits,
    {
        self.bits
    }

    /// Whether every bit of `flags` is set.
    pub fn contains(&self, flags: i32) -> (b: bool)
        ensures
            b == (self.bits & flags == flags),
    {
        self.bits & flags == flags
    }
}

} // verus!
