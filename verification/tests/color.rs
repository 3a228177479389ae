use cef::color::Color;

#[test]
fn from_argb_packs_components() {
    assert_eq!(Color::from_argb(0xFF, 0x12, 0x34, 0x56).get(), 0xFF12_3456);
    assert_eq!(Color::from_argb(0, 0, 0, 0).get(), 0);
    assert_eq!(Color::from_argb(0x80, 0xFF, 0x00, 0x01).get(), 0x80FF_0001);
}

#[test]
fn from_argb_drops_shifted_out_bits() {
    // a 9-bit alpha loses its top bit, and an oversized component overlaps
    assert_eq!(Color::from_argb(0x1FF, 0, 0, 0).get(), 0xFF00_0000);
    assert_eq!(Color::from_argb(0, 0, 0x100, 0).get(), 0x0001_0000);
}

#[test]
fn components_read_back() {
    let c = Color::from_argb(0xAB, 0xCD, 0xEF, 0x01).get();
    assert_eq!((c >> 24) & 0xFF, 0xAB);
    assert_eq!((c >> 16) & 0xFF, 0xCD);
    assert_eq!((c >> 8) & 0xFF, 0xEF);
    assert_eq!(c & 0xFF, 0x01);
}

#[test]
fn wrap_and_get() {
    assert_eq!(Color::wrap(0xDEAD_BEEF).get(), 0xDEAD_BEEF);
    assert_eq!(Color::wrap(7), Color(7));
}
