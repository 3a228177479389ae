use vstd::prelude::*;
use crate::values::{Point, Rect, Size};

pub use crate::client::life_span_handler::{PopupFeatures, RawPopupFeatures};

verus! {

/// Input modes of a virtual keyboard, by their `cef_text_input_mode_t` codes.
#[derive(Copy, Clone, PartialEq, Eq, Debug)]
pub enum TextInputMode {
    Default,
    InputNone,
    Text,
    Tel,
    URL,
    Email,
    Numeric,
    Decimal,
    Search,
}

/// The `cef_text_input_mode_t` code of a text input mode.
pub open spec fn text_input_mode_code(mode: TextInputMode) -> u32 {
    match mode {
            TextInputMode::Default => 0,
            TextInputMode::InputNone => 1,
            TextInputMode::Text => 2,
            TextInputMode::Tel => 3,
            TextInputMode::URL => 4,
            TextInputMode::Email => 5,
            TextInputMode::Numeric => 6,
            TextInputMode::Decimal => 7,
            TextInputMode::Search => 8,
    }
}

/// Each value of [TextInputMode] has its code from CEF's header.
pub proof fn lemma_text_input_mode_codes()
    ensures
        text_input_mode_code(TextInputMode::Default) == 0,
        text_input_mode_code(TextInputMode::InputNone) == 1,
        text_input_mode_code(TextInputMode::Text) == 2,
        text_input_mode_code(TextInputMode::Tel) == 3,
        text_input_mode_code(TextInputMode::URL) == 4,
        text_input_mode_code(TextInputMode::Email) == 5,
        text_input_mode_code(TextInputMode::Numeric) == 6,
        text_input_mode_code(TextInputMode::Decimal) == 7,
        text_input_mode_code(TextInputMode::Search) == 8,
{
}

impl TextInputMode {
    /// The mode with the given `cef_text_input_mode_t` code, which must be one
    /// of the known codes.
    pub fn from_unchecked(raw: u32) -> (mode: TextInputMode)
        requires
            raw <= 8,
        ensures
            text_input_mode_code(mode) == raw,
    {
        match raw {
            0 => TextInputMode::Default,
            1 => TextInputMode::InputNone,
            2 => TextInputMode::Text,
            3 => TextInputMode::Tel,
            4 => TextInputMode::URL,
            5 => TextInputMode::Email,
            6 => TextInputMode::Numeric,
            7 => TextInputMode::Decimal,
            _ => TextInputMode::Search,
        }
    }

    /// The `cef_text_input_mode_t` code of this mode.
    pub fn to_raw(&self) -> (raw: u32)
        ensures
            raw == text_input_mode_code(*self),
    {
        match self {
            TextInputMode::Default => 0,
            TextInputMode::InputNone => 1,
            TextInputMode::Text => 2,
            TextInputMode::Tel => 3,
            TextInputMode::URL => 4,
            TextInputMode::Email => 5,
            TextInputMode::Numeric => 6,
            TextInputMode::Decimal => 7,
            TextInputMode::Search => 8,
        }
    }
}

/// The `cef_cursor_type_t` code of a custom cursor.
pub const CT_CUSTOM: u32 = 43;

/// Description of a custom cursor image.
///
/// `image_scale_factor_bits` carries the IEEE-754 bit pattern of the image
/// scale factor as CEF reports it; it is passed through unchanged.
#[derive(Copy, Clone, PartialEq, Eq, Debug)]
pub struct CustomCursorInfo<'a> {
    pub hotspot: Point,
    pub image_scale_factor_bits: u32,
    /// 8-bit BGRA cursor image
    pub buffer: &'a [u8],
    pub size: Size,
}

/// Cursor types, by their `cef_cursor_type_t` codes; the last one carries the
/// image of a custom cursor.
#[derive(Copy, Clone, PartialEq, Eq, Debug)]
pub enum CursorType<'a> {
    Pointer,
    Cross,
    Hand,
    IBeam,
    Wait,
    Help,
    EastResize,
    NorthResize,
    NorthEastResize,
    NorthWestResize,
    SouthResize,
    SouthEastResize,
    SouthWestResize,
    WestResize,
    NorthSouthResize,
    EastWestResize,
    NorthEastSouthWestResize,
    NorthWestSouthEastResize,
    ColumnResize,
    RowResize,
    MiddlePanning,
    EastPanning,
    NorthPanning,
    NorthEastPanning,
    NorthWestPanning,
    SouthPanning,
    SouthEastPanning,
    SouthWestPanning,
    WestPanning,
    Move,
    VerticalText,
    Cell,
    ContextMenu,
    Alias,
    Progress,
    NoDrop,
    Copy,
    CursorNone,
    NotAllowed,
    ZoomIn,
    ZoomOut,
    Grab,
    Grabbing,
    Custom(CustomCursorInfo<'a>),
}

/// The `cef_cursor_type_t` code of a cursor type.
pub open spec fn cursor_type_code(cursor: CursorType) -> u32 {
    match cursor {
            CursorType::Pointer => 0,
            CursorType::Cross => 1,
            CursorType::Hand => 2,
            CursorType::IBeam => 3,
            CursorType::Wait => 4,
            CursorType::Help => 5,
            CursorType::EastResize => 6,
            CursorType::NorthResize => 7,
            CursorType::NorthEastResize => 8,
            CursorType::NorthWestResize => 9,
            CursorType::SouthResize => 10,
            CursorType::SouthEastResize => 11,
            CursorType::SouthWestResize => 12,
            CursorType::WestResize => 13,
            CursorType::NorthSouthResize => 14,
            CursorType::EastWestResize => 15,
            CursorType::NorthEastSouthWestResize => 16,
            CursorType::NorthWestSouthEastResize => 17,
            CursorType::ColumnResize => 18,
            CursorType::RowResize => 19,
            CursorType::MiddlePanning => 20,
            CursorType::EastPanning => 21,
            CursorType::NorthPanning => 22,
            CursorType::NorthEastPanning => 23,
            CursorType::NorthWestPanning => 24,
            CursorType::SouthPanning => 25,
            CursorType::SouthEastPanning => 26,
            CursorType::SouthWestPanning => 27,
            CursorType::WestPanning => 28,
            CursorType::Move => 29,
            CursorType::VerticalText => 30,
            CursorType::Cell => 31,
            CursorType::ContextMenu => 32,
            CursorType::Alias => 33,
            CursorType::Progress => 34,
            CursorType::NoDrop => 35,
            CursorType::Copy => 36,
            CursorType::CursorNone => 37,
            CursorType::NotAllowed => 38,
            CursorType::ZoomIn => 39,
            CursorType::ZoomOut => 40,
            CursorType::Grab => 41,
            CursorType::Grabbing => 42,
        CursorType::Custom(_) => CT_CUSTOM,
    }
}

/// The number of bytes of an 8-bit BGRA image of the given size: four bytes
/// per pixel.
pub open spec fn cursor_buffer_len_spec(size: Size) -> int {
    4 * size.width * size.height
}

/// The length of the buffer of a custom cursor image of the given size: the
/// product of four bytes per pixel, width and height, or `None` when that
/// product is negative or does not fit the 32-bit arithmetic that CEF uses for
/// it.
pub fn cursor_buffer_len(size: Size) -> (len: Option<usize>)
    ensures
        len matches Some(n) ==> n == cursor_buffer_len_spec(size),
        len is Some <==> 0 <= cursor_buffer_len_spec(size) <= i32::MAX,
{
    let w = size.width as i64;
    let h = size.height as i64;
    assert(-0x8000_0000 * 0x7fff_ffff <= w * h <= 0x8000_0000 * 0x8000_0000) by (nonlinear_arith)
        requires -0x8000_0000 <= w <= 0x7fff_ffff, -0x8000_0000 <= h <= 0x7fff_ffff;
    let wh = w * h;
    assert(cursor_buffer_len_spec(size) == 4 * wh) by (nonlinear_arith)
        requires wh == w * h, w == size.width, h == size.height;
    if wh < 0 || wh > (i32::MAX as i64) / 4 {
        return None;
    }
    Some((4 * wh) as usize)
}

impl<'a> CursorType<'a> {
    /// The cursor type with the given `cef_cursor_type_t` code. For a custom
    /// cursor (`CT_CUSTOM`) the image description must be given; its buffer
    /// holds the image bytes.
    pub fn from_raw(cursor_type: u32, custom_cursor_info: Option<CustomCursorInfo<'a>>) -> (cursor: CursorType<'a>)
        requires
            cursor_type <= CT_CUSTOM,
            cursor_type == CT_CUSTOM ==> custom_cursor_info is Some,
        ensures
            cursor_type_code(cursor) == cursor_type,
            cursor_type == CT_CUSTOM ==> cursor == CursorType::Custom(custom_cursor_info->0),
    {
        match cursor_type {
            0 => CursorType::Pointer,
            1 => CursorType::Cross,
            2 => CursorType::Hand,
            3 => CursorType::IBeam,
            4 => CursorType::Wait,
            5 => CursorType::Help,
            6 => CursorType::EastResize,
            7 => CursorType::NorthResize,
            8 => CursorType::NorthEastResize,
            9 => CursorType::NorthWestResize,
            10 => CursorType::SouthResize,
            11 => CursorType::SouthEastResize,
            12 => CursorType::SouthWestResize,
            13 => CursorType::WestResize,
            14 => CursorType::NorthSouthResize,
            15 => CursorType::EastWestResize,
            16 => CursorType::NorthEastSouthWestResize,
            17 => CursorType::NorthWestSouthEastResize,
            18 => CursorType::ColumnResize,
            19 => CursorType::RowResize,
            20 => CursorType::MiddlePanning,
            21 => CursorType::EastPanning,
            22 => CursorType::NorthPanning,
            23 => CursorType::NorthEastPanning,
            24 => CursorType::NorthWestPanning,
            25 => CursorType::SouthPanning,
            26 => CursorType::SouthEastPanning,
            27 => CursorType::SouthWestPanning,
            28 => CursorType::WestPanning,
            29 => CursorType::Move,
            30 => CursorType::VerticalText,
            31 => CursorType::Cell,
            32 => CursorType::ContextMenu,
            33 => CursorType::Alias,
            34 => CursorType::Progress,
            35 => CursorType::NoDrop,
            36 => CursorType::Copy,
            37 => CursorType::CursorNone,
            38 => CursorType::NotAllowed,
            39 => CursorType::ZoomIn,
            40 => CursorType::ZoomOut,
            41 => CursorType::Grab,
            42 => CursorType::Grabbing,
            _ => {
                match custom_cursor_info {
                    Some(info) => CursorType::Custom(info),
                    None => CursorType::Pointer,
                }
            }
        }
    }
}

/// Screen information used when window rendering is disabled. This structure is
/// passed as a parameter to CefRenderHandler::GetScreenInfo and should be filled
/// in by the client.
///
/// `device_scale_factor_bits` carries the IEEE-754 bit pattern of the device
/// scale factor (the ratio between physical and logical pixels).
#[derive(Copy, Clone, PartialEq, Eq, Debug)]
pub struct ScreenInfo {
    pub device_scale_factor_bits: u32,
    /// The screen depth in bits per pixel.
    pub depth: u32,
    /// The bits per color component. This assumes that the colors are balanced
    /// equally.
    pub depth_per_component: u32,
    /// This can be `true` for black and white printers.
    pub is_monochrome: bool,
    /// The display monitor rectangle, in virtual-screen coordinates.
    pub rect: Rect,
    /// The work area rectangle of the display monitor, in virtual-screen
    /// coordinates.
    pub available_rect: Rect,
}

/// The fields of a `cef_screen_info_t`.
#[derive(Copy, Clone, PartialEq, Eq, Debug)]
pub struct RawScreenInfo {
    pub device_scale_factor_bits: u32,
    pub depth: i32,
    pub depth_per_component: i32,
    pub is_monochrome: i32,
    pub rect: Rect,
    pub available_rect: Rect,
}

/// The CEF record of screen information: depths reinterpreted as C ints and
/// the monochrome flag as 1 or 0.
pub open spec fn raw_of_screen_info(info: ScreenInfo) -> RawScreenInfo {
    RawScreenInfo {
        device_scale_factor_bits: info.device_scale_factor_bits,
        depth: info.depth as i32,
        depth_per_component: info.depth_per_component as i32,
        is_monochrome: if info.is_monochrome { 1 } else { 0 },
        rect: info.rect,
        available_rect: info.available_rect,
    }
}

/// The screen information of a CEF record: each depth read from its own field
/// and reinterpreted as unsigned, the monochrome flag as `!= 0`.
pub open spec fn screen_info_of_raw(raw: RawScreenInfo) -> ScreenInfo {
    ScreenInfo {
        device_scale_factor_bits: raw.device_scale_factor_bits,
        depth: raw.depth as u32,
        depth_per_component: raw.depth_per_component as u32,
        is_monochrome: raw.is_monochrome != 0,
        rect: raw.rect,
        available_rect: raw.available_rect,
    }
}

impl ScreenInfo {
    /// Writes this screen information into a `cef_screen_info_t`.
    pub fn write_to_cef(&self, cef: &mut RawScreenInfo)
        ensures
            *final(cef) == raw_of_screen_info(*self),
            final(cef).device_scale_factor_bits == self.device_scale_factor_bits,
            final(cef).depth == self.depth as i32,
            final(cef).depth_per_component == self.depth_per_component as i32,
            final(cef).is_monochrome == (if self.is_monochrome { 1i32 } else { 0i32 }),
            final(cef).rect == self.rect,
            final(cef).available_rect == self.available_rect,
    {
        cef.device_scale_factor_bits = self.device_scale_factor_bits;
        cef.depth = self.depth as i32;
        cef.depth_per_component = self.depth_per_component as i32;
        cef.is_monochrome = if self.is_monochrome { 1 } else { 0 };
        cef.rect = self.rect;
        cef.available_rect = self.available_rect;
    }

    /// Reads screen information from a `cef_screen_info_t`.
    pub fn from_raw(info: &RawScreenInfo) -> (s: ScreenInfo)
        ensures
            s == screen_info_of_raw(*info),
            s.device_scale_factor_bits == info.device_scale_factor_bits,
            s.depth == info.depth as u32,
            s.depth_per_component == info.depth_per_component as u32,
            s.is_monochrome == (info.is_monochrome != 0),
            s.rect == info.rect,
            s.available_rect == info.available_rect,
    {
        ScreenInfo {
            device_scale_factor_bits: info.device_scale_factor_bits,
            depth: info.depth as u32,
            depth_per_component: info.depth_per_component as u32,
            is_monochrome: info.is_monochrome != 0,
            rect: info.rect,
            available_rect: info.available_rect,
        }
    }
}

impl<'a> From<&'a RawScreenInfo> for ScreenInfo {
    /// Reads screen information from a `cef_screen_info_t`, as `from_raw`.
    fn from(info: &'a RawScreenInfo) -> (s: ScreenInfo) {
        ScreenInfo::from_raw(info)
    }
}

impl<'a> vstd::std_specs::convert::FromSpecImpl<&'a RawScreenInfo> for ScreenInfo {
    open spec fn obeys_from_spec() -> bool {
        true
    }

    open spec fn from_spec(info: &'a RawScreenInfo) -> ScreenInfo {
        screen_info_of_raw(*info)
    }
}

/// Each cursor type has its `cef_cursor_type_t` code from CEF's header, and
/// a code other than `CT_CUSTOM` read back gives the cursor type with that
/// code.
pub proof fn lemma_cursor_type_cef_codes<'a>()
    ensures
        cursor_type_code(CursorType::<'a>::Pointer) == 0,
        cursor_type_code(CursorType::<'a>::Cross) == 1,
        cursor_type_code(CursorType::<'a>::Hand) == 2,
        cursor_type_code(CursorType::<'a>::IBeam) == 3,
        cursor_type_code(CursorType::<'a>::Wait) == 4,
        cursor_type_code(CursorType::<'a>::Help) == 5,
        cursor_type_code(CursorType::<'a>::EastResize) == 6,
        cursor_type_code(CursorType::<'a>::NorthResize) == 7,
        cursor_type_code(CursorType::<'a>::NorthEastResize) == 8,
        cursor_type_code(CursorType::<'a>::NorthWestResize) == 9,
        cursor_type_code(CursorType::<'a>::SouthResize) == 10,
        cursor_type_code(CursorType::<'a>::SouthEastResize) == 11,
        cursor_type_code(CursorType::<'a>::SouthWestResize) == 12,
        cursor_type_code(CursorType::<'a>::WestResize) == 13,
        cursor_type_code(CursorType::<'a>::NorthSouthResize) == 14,
        cursor_type_code(CursorType::<'a>::EastWestResize) == 15,
        cursor_type_code(CursorType::<'a>::NorthEastSouthWestResize) == 16,
        cursor_type_code(CursorType::<'a>::NorthWestSouthEastResize) == 17,
        cursor_type_code(CursorType::<'a>::ColumnResize) == 18,
        cursor_type_code(CursorType::<'a>::RowResize) == 19,
        cursor_type_code(CursorType::<'a>::MiddlePanning) == 20,
        cursor_type_code(CursorType::<'a>::EastPanning) == 21,
        cursor_type_code(CursorType::<'a>::NorthPanning) == 22,
        cursor_type_code(CursorType::<'a>::NorthEastPanning) == 23,
        cursor_type_code(CursorType::<'a>::NorthWestPanning) == 24,
        cursor_type_code(CursorType::<'a>::SouthPanning) == 25,
        cursor_type_code(CursorType::<'a>::SouthEastPanning) == 26,
        cursor_type_code(CursorType::<'a>::SouthWestPanning) == 27,
        cursor_type_code(CursorType::<'a>::WestPanning) == 28,
        cursor_type_code(CursorType::<'a>::Move) == 29,
        cursor_type_code(CursorType::<'a>::VerticalText) == 30,
        cursor_type_code(CursorType::<'a>::Cell) == 31,
        cursor_type_code(CursorType::<'a>::ContextMenu) == 32,
        cursor_type_code(CursorType::<'a>::Alias) == 33,
        cursor_type_code(CursorType::<'a>::Progress) == 34,
        cursor_type_code(CursorType::<'a>::NoDrop) == 35,
        cursor_type_code(CursorType::<'a>::Copy) == 36,
        cursor_type_code(CursorType::<'a>::CursorNone) == 37,
        cursor_type_code(CursorType::<'a>::NotAllowed) == 38,
        cursor_type_code(CursorType::<'a>::ZoomIn) == 39,
        cursor_type_code(CursorType::<'a>::ZoomOut) == 40,
        cursor_type_code(CursorType::<'a>::Grab) == 41,
        cursor_type_code(CursorType::<'a>::Grabbing) == 42,
        forall|info: CustomCursorInfo<'a>| #[trigger] cursor_type_code(CursorType::Custom(info)) == 43,
        CT_CUSTOM == 43,
{
}

/// Writing screen information copies each field into the field of the same
/// name (depths reinterpreted as C ints, the monochrome flag as 1 or 0), and
/// reading takes each field from the field of the same name: the display and
/// work-area rectangles pass through unchanged.
pub proof fn lemma_screen_info_fields(info: ScreenInfo, raw: RawScreenInfo)
    ensures
        raw_of_screen_info(info).device_scale_factor_bits == info.device_scale_factor_bits,
        raw_of_screen_info(info).depth == info.depth as i32,
        raw_of_screen_info(info).depth_per_component == info.depth_per_component as i32,
        raw_of_screen_info(info).is_monochrome == (if info.is_monochrome { 1i32 } else { 0i32 }),
        raw_of_screen_info(info).rect == info.rect,
        raw_of_screen_info(info).available_rect == info.available_rect,
        screen_info_of_raw(raw).device_scale_factor_bits == raw.device_scale_factor_bits,
        screen_info_of_raw(raw).depth == raw.depth as u32,
        screen_info_of_raw(raw).depth_per_component == raw.depth_per_component as u32,
        screen_info_of_raw(raw).is_monochrome == (raw.is_monochrome != 0),
        screen_info_of_raw(raw).rect == raw.rect,
        screen_info_of_raw(raw).available_rect == raw.available_rect,
        screen_info_of_raw(raw).available_rect.x == raw.available_rect.x,
        screen_info_of_raw(raw).available_rect.width == raw.available_rect.width,
        raw_of_screen_info(info).available_rect.x == info.available_rect.x,
        raw_of_screen_info(info).available_rect.width == info.available_rect.width,
{
}

/// Distinct cursor types other than custom ones have distinct codes, so a
/// cursor type read back from its code is the same cursor type.
pub proof fn lemma_cursor_type_codes(cursor: CursorType, other: CursorType)
    ensures
        cursor_type_code(cursor) <= CT_CUSTOM,
        cursor_type_code(cursor) == cursor_type_code(other) && cursor_type_code(cursor) != CT_CUSTOM ==> cursor == other,
{
}

/// Reading back screen information written to its CEF record gives the same
/// screen information, field by field: `write_to_cef` leaves `raw` as
/// `raw_of_screen_info(info)`, and `from_raw` (or `From`) of it gives
/// `screen_info_of_raw(raw)`.
pub proof fn lemma_screen_info_round_trip(info: ScreenInfo, raw: RawScreenInfo, back: ScreenInfo)
    requires
        raw == raw_of_screen_info(info),
        back == screen_info_of_raw(raw),
    ensures
        back == info,
        back.device_scale_factor_bits == info.device_scale_factor_bits,
        back.depth == info.depth,
        back.depth_per_component == info.depth_per_component,
        back.is_monochrome == info.is_monochrome,
        back.rect == info.rect,
        back.available_rect == info.available_rect,
{
    let d = info.depth;
    let c = info.depth_per_component;
    assert((d as i32) as u32 == d && (c as i32) as u32 == c) by (bit_vector);
}

} // verus!
