use cef::client::render_handler::{
    cursor_buffer_len, CursorType, CustomCursorInfo, RawScreenInfo, ScreenInfo, TextInputMode, CT_CUSTOM,
};
use cef::client::life_span_handler::{PopupFeatures, RawPopupFeatures};
use cef::client::drag_handler;
use cef::values::{Point, Rect, Size};

#[test]
fn cursor_type_from_known_codes() {
    assert_eq!(CursorType::from_raw(0, None), CursorType::Pointer);
    assert_eq!(CursorType::from_raw(2, None), CursorType::Hand);
    assert_eq!(CursorType::from_raw(3, None), CursorType::IBeam);
    assert_eq!(CursorType::from_raw(29, None), CursorType::Move);
    assert_eq!(CursorType::from_raw(37, None), CursorType::CursorNone);
    assert_eq!(CursorType::from_raw(42, None), CursorType::Grabbing);
}

#[test]
fn custom_cursor_keeps_its_image() {
    let pixels = vec![1u8, 2, 3, 4, 5, 6, 7, 8];
    let info = CustomCursorInfo {
        hotspot: Point { x: 1, y: 0 },
        image_scale_factor_bits: 0x3F80_0000,
        buffer: &pixels,
        size: Size { width: 2, height: 1 },
    };
    match CursorType::from_raw(CT_CUSTOM, Some(info)) {
        CursorType::Custom(c) => {
            assert_eq!(c.hotspot, Point { x: 1, y: 0 });
            assert_eq!(c.buffer, &pixels[..]);
            assert_eq!(c.size, Size { width: 2, height: 1 });
            assert_eq!(c.image_scale_factor_bits, 0x3F80_0000);
        }
        _ => panic!("expected a custom cursor"),
    }
}

#[test]
fn cursor_buffer_len_is_four_bytes_per_pixel() {
    assert_eq!(cursor_buffer_len(Size { width: 2, height: 3 }), Some(24));
    assert_eq!(cursor_buffer_len(Size { width: 0, height: 5 }), Some(0));
    assert_eq!(cursor_buffer_len(Size { width: -1, height: 5 }), None);
    assert_eq!(cursor_buffer_len(Size { width: 5, height: -1 }), None);
    assert_eq!(cursor_buffer_len(Size { width: -1, height: -1 }), Some(4));
    assert_eq!(cursor_buffer_len(Size { width: 65536, height: 65536 }), None);
    assert_eq!(cursor_buffer_len(Size { width: 16384, height: 32767 }), Some(2147418112));
    assert_eq!(cursor_buffer_len(Size { width: 16384, height: 32768 }), None);
}

#[test]
fn text_input_mode_codes() {
    assert_eq!(TextInputMode::from_unchecked(0), TextInputMode::Default);
    assert_eq!(TextInputMode::from_unchecked(1), TextInputMode::InputNone);
    assert_eq!(TextInputMode::from_unchecked(8), TextInputMode::Search);
    assert_eq!(TextInputMode::Email.to_raw(), 5);
}

#[test]
fn popup_features_from_raw() {
    let raw = RawPopupFeatures {
        x: 10,
        x_set: 1,
        y: 20,
        y_set: 0,
        width: 300,
        width_set: 5,
        height: 400,
        height_set: 0,
        menu_bar_visible: 1,
        status_bar_visible: 0,
        tool_bar_visible: 2,
        scrollbars_visible: 0,
    };
    let f = PopupFeatures::new(&raw);
    assert_eq!(
        f,
        PopupFeatures {
            x: Some(10),
            y: None,
            width: Some(300),
            height: None,
            menu_bar_visible: true,
            status_bar_visible: false,
            tool_bar_visible: true,
            scroll_bars_visible: false,
        }
    );
    assert_eq!(drag_handler::PopupFeatures::new(&RawPopupFeatures::default()).x, None);
}

#[test]
fn screen_info_write_and_read() {
    let info = ScreenInfo {
        device_scale_factor_bits: 0x4000_0000,
        depth: 24,
        depth_per_component: 8,
        is_monochrome: true,
        rect: Rect { x: -10, y: 0, width: 1920, height: 1080 },
        available_rect: Rect { x: 0, y: 0, width: 1920, height: 1040 },
    };
    let mut raw = RawScreenInfo {
        device_scale_factor_bits: 0,
        depth: 0,
        depth_per_component: 0,
        is_monochrome: 0,
        rect: Rect::default(),
        available_rect: Rect::default(),
    };
    info.write_to_cef(&mut raw);
    assert_eq!(raw.depth, 24);
    assert_eq!(raw.depth_per_component, 8);
    assert_eq!(raw.is_monochrome, 1);
    assert_eq!(raw.rect, info.rect);
    let back = ScreenInfo::from_raw(&raw);
    assert_eq!(back, info);
    assert_eq!(ScreenInfo::from(&raw), info);
}

#[test]
fn screen_info_depth_per_component_read_from_its_own_field() {
    let raw = RawScreenInfo {
        device_scale_factor_bits: 0,
        depth: 32,
        depth_per_component: 10,
        is_monochrome: 0,
        rect: Rect::default(),
        available_rect: Rect::default(),
    };
    let info = ScreenInfo::from_raw(&raw);
    assert_eq!(info.depth, 32);
    assert_eq!(info.depth_per_component, 10);
    assert!(!info.is_monochrome);
}
