use cef::browser_host::PaintElementType;
use cef::client::download_handler::percent_complete_from_raw;
use cef::client::focus_handler::FocusSource;
use cef::client::js_dialog_handler::JsDialogType;
use cef::client::request_handler::{TerminationStatus, WindowOpenDisposition};
use cef::color::Color;
use cef::drag::DragOperation;
use cef::frame::identifier_from_raw;
use cef::image::{jpeg_quality, AlphaType, BinaryImage, ColorType};
use cef::ime::{CompositionUnderline, CompositionUnderlineStyle};
use cef::media_router::{MediaSinkDeviceInfo, RawMediaSinkDeviceInfo};
use cef::printing::{PDFPrintMargin, PDFPrintSettings};
use cef::process::ProcessId;
use cef::ptr_hash::Hashed;
use cef::values::Range;
use cef::{Context, ReturnValue};

#[test]
fn download_percent() {
    assert_eq!(percent_complete_from_raw(-1), None);
    assert_eq!(percent_complete_from_raw(0), Some(0));
    assert_eq!(percent_complete_from_raw(57), Some(57));
    assert_eq!(percent_complete_from_raw(100), Some(100));
    assert_eq!(percent_complete_from_raw(300), Some(44));
}

#[test]
fn frame_identifier() {
    assert_eq!(identifier_from_raw(-1), None);
    assert_eq!(identifier_from_raw(i64::MIN), None);
    assert_eq!(identifier_from_raw(0), Some(0));
    assert_eq!(identifier_from_raw(1234567890123), Some(1234567890123));
}

#[test]
fn jpeg_quality_is_capped() {
    assert_eq!(jpeg_quality(0), 0);
    assert_eq!(jpeg_quality(90), 90);
    assert_eq!(jpeg_quality(100), 100);
    assert_eq!(jpeg_quality(255), 100);
}

#[test]
fn binary_image_only_with_data() {
    assert_eq!(BinaryImage::from_result(1, 1, None), None);
    assert!(BinaryImage::from_result(2, 3, Some(vec![0u8; 24])).is_some());
    assert_eq!(ColorType::Bgra8888.to_raw(), 1);
    assert_eq!(AlphaType::Postmultiplied.to_raw(), 2);
}

#[test]
fn media_sink_device_info() {
    let raw = RawMediaSinkDeviceInfo { ip_address: "192.168.1.2".to_string(), port: 8009, model_name: "TV".to_string() };
    let d = MediaSinkDeviceInfo::from_raw(&raw);
    assert_eq!(d.ip_address, "192.168.1.2");
    assert_eq!(d.port, 8009);
    assert_eq!(d.model_name, "TV");
}

#[test]
fn context_only_on_success() {
    assert!(Context::from_initialize_result(true).is_some());
    assert!(Context::from_initialize_result(false).is_none());
}

#[test]
fn address_hashes() {
    let a = Hashed::from(0x1000);
    let b = Hashed::from(0x1000);
    let c = Hashed::from(0x2000);
    assert_eq!(a, b);
    assert_ne!(a.get(), c.get());
    let mut hasher = std::collections::hash_map::DefaultHasher::new();
    std::hash::Hasher::write_usize(&mut hasher, 0x1000);
    assert_eq!(a.get(), std::hash::Hasher::finish(&hasher));
}

#[test]
fn enum_codes() {
    assert_eq!(ProcessId::from_unchecked(1), ProcessId::Renderer);
    assert_eq!(ProcessId::Browser.to_raw(), 0);
    assert_eq!(ReturnValue::from_unchecked(2), ReturnValue::ContinueAsync);
    assert_eq!(ReturnValue::Cancel.to_raw(), 0);
    assert_eq!(PaintElementType::from_unchecked(1), PaintElementType::Popup);
    assert_eq!(FocusSource::from_unchecked(1), FocusSource::System);
    assert_eq!(JsDialogType::Prompt.to_raw(), 2);
    assert_eq!(WindowOpenDisposition::from_unchecked(5), WindowOpenDisposition::NewPopup);
    assert_eq!(TerminationStatus::from_unchecked(3), TerminationStatus::ProcessOom);
    assert_eq!(PDFPrintMargin::Custom.to_raw(), 3);
    assert_eq!(CompositionUnderlineStyle::from_unchecked(3), CompositionUnderlineStyle::NoUnderline);
}

#[test]
fn drag_operations() {
    let d = DragOperation::from_unchecked(DragOperation::COPY | DragOperation::MOVE);
    assert!(d.contains(DragOperation::MOVE));
    assert!(!d.contains(DragOperation::LINK));
    assert_eq!(DragOperation::from_bits_truncate(0xFFFF_FFFF).bits(), 0x3F);
}

#[test]
fn print_settings_to_raw() {
    let s = PDFPrintSettings {
        header_footer_title: "t".to_string(),
        header_footer_url: "u".to_string(),
        page_width: 210000,
        page_height: 297000,
        scale_factor: 100,
        margin_top: 1,
        margin_right: 2,
        margin_bottom: 3,
        margin_left: 4,
        margin_type: PDFPrintMargin::Minimum,
        header_footer_enabled: true,
        selection_only: false,
        landscape: true,
        backgrounds_enabled: false,
    };
    let raw = s.into_raw();
    assert_eq!(raw.margin_type, 2);
    assert_eq!(raw.header_footer_enabled, 1);
    assert_eq!(raw.selection_only, 0);
    assert_eq!(raw.landscape, 1);
    assert_eq!(raw.page_height, 297000);
    assert_eq!(raw.header_footer_title, "t");
    assert_eq!(PDFPrintMargin::default(), PDFPrintMargin::Default);
}

#[test]
fn composition_underline_to_raw() {
    let u = CompositionUnderline {
        range: Range { from: 1, to: 4 },
        color: Color(0xFF00_0000),
        background_color: Color(0),
        thick: true,
        style: CompositionUnderlineStyle::Dash,
    };
    let raw = u.into_raw();
    assert_eq!(raw.range, Range { from: 1, to: 4 });
    assert_eq!(raw.color, 0xFF00_0000);
    assert_eq!(raw.thick, 1);
    assert_eq!(raw.style, 2);
    assert_eq!(CompositionUnderlineStyle::default(), CompositionUnderlineStyle::Solid);
}
