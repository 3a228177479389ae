use vstd::prelude::*;

verus! {

/// Supported color types of image pixels.
#[derive(Debug, Copy, Clone, PartialEq, Eq)]
pub enum ColorType {
    Rgba8888,
    Bgra8888,
}

/// Supported alpha types of image pixels.
#[derive(Debug, Copy, Clone, PartialEq, Eq)]
pub enum AlphaType {
    Opaque,
    Premultiplied,
    Postmultiplied,
}

/// The `cef_color_type_t` code of a color type.
pub open spec fn color_type_code(t: ColorType) -> i32 {
    match t {
        ColorType::Rgba8888 => 0,
        ColorType::Bgra8888 => 1,
    }
}

/// Each value of [ColorType] has its code from CEF's header.
pub proof fn lemma_color_type_codes()
    ensures
        color_type_code(ColorType::Rgba8888) == 0,
        color_type_code(ColorType::Bgra8888) == 1,
{
}

/// The `cef_alpha_type_t` code of an alpha type.
pub open spec fn alpha_type_code(t: AlphaType) -> i32 {
    match t {
        AlphaType::Opaque => 0,
        AlphaType::Premultiplied => 1,
        AlphaType::Postmultiplied => 2,
    }
}

/// Each value of [AlphaType] has its code from CEF's header.
pub proof fn lemma_alpha_type_codes()
    ensures
        alpha_type_code(AlphaType::Opaque) == 0,
        alpha_type_code(AlphaType::Premultiplied) == 1,
        alpha_type_code(AlphaType::Postmultiplied) == 2,
{
}

impl ColorType {
    /// The `cef_color_type_t` code of this color type.
    pub fn to_raw(&self) -> (c: i32)
        ensures
            c == color_type_code(*self),
    {
        match self {
            ColorType::Rgba8888 => 0,
            ColorType::Bgra8888 => 1,
        }
    }
}

impl AlphaType {
    /// The `cef_alpha_type_t` code of this alpha type.
    pub fn to_raw(&self) -> (c: i32)
        ensures
            c == alpha_type_code(*self),
    {
        match self {
            AlphaType::Opaque => 0,
            AlphaType::Premultiplied => 1,
            AlphaType::Postmultiplied => 2,
        }
    }
}

/// An encoded or raw image representation with its size in pixels.
#[derive(Debug, Clone, PartialEq, Eq)]
pub struct BinaryImage {
    pixel_width: i32,
    pixel_height: i32,
    data: Vec<u8>,
}

impl BinaryImage {
    /// The width of the image in pixels.
    pub closed spec fn width(&self) -> i32 {
        self.pixel_width
    }

    /// The height of the image in pixels.
    pub closed spec fn height(&self) -> i32 {
        self.pixel_height
    }

    /// The image bytes.
    pub closed spec fn bytes(&self) -> Seq<u8> {
        self.data@
    }

    /// The image that CEF produced: its size and its bytes, where CEF
    /// returned a binary value at all.
    pub fn from_result(pixel_width: i32, pixel_height: i32, data: Option<Vec<u8>>) -> (img: Option<BinaryImage>)
        ensures
            img is Some <==> data is Some,
            img matches Some(i) ==> i.width() == pixel_width && i.height() == pixel_height
                && i.bytes() == data->0@,
    {
        match data {
            Some(data) => Some(BinaryImage { pixel_width, pixel_height, data }),
            None => None,
        }
    }
}

/// The JPEG quality handed to CEF: the requested one, at most 100.
pub fn jpeg_quality(quality: u8) -> (q: i32)
    ensures
        q == (if quality < 100 { quality as i32 } else { 100i32 }),
{
    if quality < 100 {
        quality as i32
    } else {
        100
    }
}

} // verus!
