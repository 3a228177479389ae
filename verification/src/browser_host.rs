use vstd::prelude::*;

verus! {

/// Paint element types.
#[derive(Debug, Clone, Copy, PartialEq, Eq)]
pub enum PaintElementType {
    View,
    Popup,
}

/// The `cef_paint_element_type_t` code of a value of [PaintElementType].
pub open spec fn paint_element_type_code(v: PaintElementType) -> i32 {
    match v {
        PaintElementType::View => 0,
        PaintElementType::Popup => 1,
    }
}

/// Each value of [PaintElementType] has its code from CEF's header.
pub proof fn lemma_paint_element_type_codes()
    ensures
        paint_element_type_code(PaintElementType::View) == 0,
        paint_element_type_code(PaintElementType::Popup) == 1,
{
}

impl PaintElementType {
    /// The value with a known `cef_paint_element_type_t` code.
    pub fn from_unchecked(c: i32) -> (v: PaintElementType)
        requires
            0 <= c < 2,
        ensures
            paint_element_type_code(v) == c,
    {
        match c {
            0 => PaintElementType::View,
            _ => PaintElementType::Popup,
        }
    }

    /// The `cef_paint_element_type_t` code of this value.
    pub fn to_raw(&self) -> (c: i32)
        ensures
            c == paint_element_type_code(*self),
    {
        match self {
            PaintElementType::View => 0,
            PaintElementType::Popup => 1,
        }
    }
}

} // verus!
