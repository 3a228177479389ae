use vstd::prelude::*;

verus! {

/// 32-bit ARGB color value, not premultiplied. The color components are always
/// in a known order. Equivalent to the SkColor type.
#[derive(Clone, Copy, PartialEq, Eq, Debug)]
pub struct Color(pub u32);

/// The packed ARGB value of four already-scaled components, as
/// `(alpha << 24) | (red << 16) | (green << 8) | blue` on 32 bits; bits
/// shifted out of the 32-bit word are dropped.
pub open spec fn packed_argb(alpha: u32, red: u32, green: u32, blue: u32) -> u32 {
    ((alpha << 24u32) | (red << 16u32) | (green << 8u32) | blue) as u32
}

impl Color {
    /// Wraps a raw `cef_color_t` value.
    pub fn wrap(raw: u32) -> (c: Color)
        ensures
            c.0 == raw,
    {
        Color(raw)
    }

    /// The raw `cef_color_t` value.
    pub fn get(&self) -> (raw: u32)
        ensures
            raw == self.0,
    {
        self.0
    }

    /// Packs four components that have already been scaled to integers.
    pub fn from_argb(alpha: u32, red: u32, green: u32, blue: u32) -> (c: Color)
        ensures
            c.0 == packed_argb(alpha, red, green, blue),
    {
        Color(alpha.wrapping_shl(24) | red.wrapping_shl(16) | green.wrapping_shl(8) | blue)
    }
}

/// Each of four byte-sized components can be read back from its place in the
/// packed value: alpha in the top byte, then red, green and blue.
pub proof fn lemma_packed_argb_components(alpha: u32, red: u32, green: u32, blue: u32)
    requires
        alpha < 256,
        red < 256,
        green < 256,
        blue < 256,
    ensures
        (packed_argb(alpha, red, green, blue) >> 24u32) & 0xFFu32 == alpha,
        (packed_argb(alpha, red, green, blue) >> 16u32) & 0xFFu32 == red,
        (packed_argb(alpha, red, green, blue) >> 8u32) & 0xFFu32 == green,
        packed_argb(alpha, red, green, blue) & 0xFFu32 == blue,
{
    let p = packed_argb(alpha, red, green, blue);
    assert((p >> 24u32) & 0xFFu32 == alpha && (p >> 16u32) & 0xFFu32 == red && (p >> 8u32) & 0xFFu32 == green
        && p & 0xFFu32 == blue) by (bit_vector)
        requires
            p == ((alpha << 24u32) | (red << 16u32) | (green << 8u32) | blue),
            alpha < 256,
            red < 256,
            green < 256,
            blue < 256;
}

} // verus!
