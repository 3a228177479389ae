use vstd::prelude::*;
use crate::color::Color;
use crate::values::Range;

verus! {

/// Composition underline style.
#[derive(Debug, Clone, Copy, PartialEq, Eq)]
pub enum CompositionUnderlineStyle {
    Solid,
    Dot,
    Dash,
    NoUnderline,
}

/// The `cef_composition_underline_style_t` code of a value of [CompositionUnderlineStyle].
pub open spec fn composition_underline_style_code(v: CompositionUnderlineStyle) -> u32 {
    match v {
        CompositionUnderlineStyle::Solid => 0,
        CompositionUnderlineStyle::Dot => 1,
        CompositionUnderlineStyle::Dash => 2,
        CompositionUnderlineStyle::NoUnderline => 3,
    }
}

/// Each value of [CompositionUnderlineStyle] has its code from CEF's header.
pub proof fn lemma_composition_underline_style_codes()
    ensures
        composition_underline_style_code(CompositionUnderlineStyle::Solid) == 0,
        composition_underline_style_code(CompositionUnderlineStyle::Dot) == 1,
        composition_underline_style_code(CompositionUnderlineStyle::Dash) == 2,
        composition_underline_style_code(CompositionUnderlineStyle::NoUnderline) == 3,
{
}

impl CompositionUnderlineStyle {
    /// The value with a known `cef_composition_underline_style_t` code.
    pub fn from_unchecked(c: u32) -> (v: CompositionUnderlineStyle)
        requires
            0 <= c < 4,
        ensures
            composition_underline_style_code(v) == c,
    {
        match c {
            0 => CompositionUnderlineStyle::Solid,
            1 => CompositionUnderlineStyle::Dot,
            2 => CompositionUnderlineStyle::Dash,
            _ => CompositionUnderlineStyle::NoUnderline,
        }
    }

    /// The `cef_composition_underline_style_t` code of this value.
    pub fn to_raw(&self) -> (c: u32)
        ensures
            c == composition_underline_style_code(*self),
    {
        match self {
            CompositionUnderlineStyle::Solid => 0,
            CompositionUnderlineStyle::Dot => 1,
            CompositionUnderlineStyle::Dash => 2,
            CompositionUnderlineStyle::NoUnderline => 3,
        }
    }
}

impl Default for CompositionUnderlineStyle {
    fn default() -> (s: CompositionUnderlineStyle)
        ensures
            s == CompositionUnderlineStyle::Solid,
    {
        CompositionUnderlineStyle::Solid
    }
}

/// Structure representing IME composition underline information. This is a thin
/// wrapper around Blink's WebCompositionUnderline class and should be kept in
/// sync with that.
#[derive(Debug, Clone, Copy, PartialEq, Eq)]
pub struct CompositionUnderline {
    /// Underline character range.
    pub range: Range,
    /// Text color.
    pub color: Color,
    /// Background color.
    pub background_color: Color,
    /// Set to true for thick underline.
    pub thick: bool,
    /// Style.
    pub style: CompositionUnderlineStyle,
}

/// The fields of a `cef_composition_underline_t`.
#[derive(Debug, Clone, Copy, PartialEq, Eq)]
pub struct RawCompositionUnderline {
    pub range: Range,
    pub color: u32,
    pub background_color: u32,
    pub thick: i32,
    pub style: u32,
}

impl CompositionUnderline {
    /// The CEF record of this underline.
    pub fn into_raw(&self) -> (raw: RawCompositionUnderline)
        ensures
            raw == (RawCompositionUnderline {
                range: self.range,
                color: self.color.0,
                background_color: self.background_color.0,
                thick: if self.thick { 1 } else { 0 },
                style: composition_underline_style_code(self.style),
            }),
    {
        RawCompositionUnderline {
            range: self.range,
            color: self.color.get(),
            background_color: self.background_color.get(),
            thick: if self.thick { 1 } else { 0 },
            style: self.style.to_raw(),
        }
    }
}

} // verus!
