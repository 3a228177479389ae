use vstd::prelude::*;

verus! {

/// Margin type for PDF printing.
#[derive(Debug, Clone, Copy, PartialEq, Eq)]
pub enum PDFPrintMargin {
    /// Default margins.
    Default,
    /// No margins.
    NoMargin,
    /// Minimum margins.
    Minimum,
    /// Custom margins using the margin values.
    Custom,
}

/// The `cef_pdf_print_margin_type_t` code of a value of [PDFPrintMargin].
pub open spec fn pdf_print_margin_code(v: PDFPrintMargin) -> u32 {
    match v {
        PDFPrintMargin::Default => 0,
        PDFPrintMargin::NoMargin => 1,
        PDFPrintMargin::Minimum => 2,
        PDFPrintMargin::Custom => 3,
    }
}

impl PDFPrintMargin {
    /// The value with a known `cef_pdf_print_margin_type_t` code.
    pub fn from_unchecked(c: u32) -> (v: PDFPrintMargin)
        requires
            0 <= c < 4,
        ensures
            pdf_print_margin_code(v) == c,
    {
        match c {
            0 => PDFPrintMargin::Default,
            1 => PDFPrintMargin::NoMargin,
            2 => PDFPrintMargin::Minimum,
            _ => PDFPrintMargin::Custom,
        }
    }

    /// The `cef_pdf_print_margin_type_t` code of this value.
    pub fn to_raw(&self) -> (c: u32)
        ensures
            c == pdf_print_margin_code(*self),
    {
        match self {
            PDFPrintMargin::Default => 0,
            PDFPrintMargin::NoMargin => 1,
            PDFPrintMargin::Minimum => 2,
            PDFPrintMargin::Custom => 3,
        }
    }
}

impl Default for PDFPrintMargin {
    fn default() -> (m: PDFPrintMargin)
        ensures
            m == PDFPrintMargin::Default,
    {
        PDFPrintMargin::Default
    }
}

/// Structure representing PDF print settings.
#[derive(Debug, Clone, PartialEq, Eq)]
pub struct PDFPrintSettings {
    pub header_footer_title: String,
    pub header_footer_url: String,
    pub page_width: i32,
    pub page_height: i32,
    pub scale_factor: i32,
    pub margin_top: i32,
    pub margin_right: i32,
    pub margin_bottom: i32,
    pub margin_left: i32,
    pub margin_type: PDFPrintMargin,
    pub header_footer_enabled: bool,
    pub selection_only: bool,
    pub landscape: bool,
    pub backgrounds_enabled: bool,
}

/// The fields of a `cef_pdf_print_settings_t`, strings not yet encoded.
#[derive(Debug, Clone, PartialEq, Eq)]
pub struct RawPdfPrintSettings {
    pub header_footer_title: String,
    pub header_footer_url: String,
    pub page_width: i32,
    pub page_height: i32,
    pub scale_factor: i32,
    pub margin_top: i32,
    pub margin_right: i32,
    pub margin_bottom: i32,
    pub margin_left: i32,
    pub margin_type: u32,
    pub header_footer_enabled: i32,
    pub selection_only: i32,
    pub landscape: i32,
    pub backgrounds_enabled: i32,
}

/// The CEF record of PDF print settings, field by field; booleans as 1 or 0.
pub open spec fn raw_of_pdf_print_settings(s: PDFPrintSettings) -> RawPdfPrintSettings {
    RawPdfPrintSettings {
        header_footer_title: s.header_footer_title,
        header_footer_url: s.header_footer_url,
        page_width: s.page_width,
        page_height: s.page_height,
        scale_factor: s.scale_factor,
        margin_top: s.margin_top,
        margin_right: s.margin_right,
        margin_bottom: s.margin_bottom,
        margin_left: s.margin_left,
        margin_type: pdf_print_margin_code(s.margin_type),
        header_footer_enabled: if s.header_footer_enabled { 1 } else { 0 },
        selection_only: if s.selection_only { 1 } else { 0 },
        landscape: if s.landscape { 1 } else { 0 },
        backgrounds_enabled: if s.backgrounds_enabled { 1 } else { 0 },
    }
}

impl PDFPrintSettings {
    /// The CEF record of these settings.
    pub fn into_raw(&self) -> (raw: RawPdfPrintSettings)
        ensures
            raw == raw_of_pdf_print_settings(*self),
            raw.header_footer_title == self.header_footer_title,
            raw.header_footer_url == self.header_footer_url,
            raw.page_width == self.page_width,
            raw.page_height == self.page_height,
            raw.scale_factor == self.scale_factor,
            raw.margin_top == self.margin_top,
            raw.margin_right == self.margin_right,
            raw.margin_bottom == self.margin_bottom,
            raw.margin_left == self.margin_left,
            raw.margin_type == pdf_print_margin_code(self.margin_type),
            raw.header_footer_enabled == (if self.header_footer_enabled { 1i32 } else { 0i32 }),
            raw.selection_only == (if self.selection_only { 1i32 } else { 0i32 }),
            raw.landscape == (if self.landscape { 1i32 } else { 0i32 }),
            raw.backgrounds_enabled == (if self.backgrounds_enabled { 1i32 } else { 0i32 }),
    {
        RawPdfPrintSettings {
            header_footer_title: self.header_footer_title.clone(),
            header_footer_url: self.header_footer_url.clone(),
            page_width: self.page_width,
            page_height: self.page_height,
            scale_factor: self.scale_factor,
            margin_top: self.margin_top,
            margin_right: self.margin_right,
            margin_bottom: self.margin_bottom,
            margin_left: self.margin_left,
            margin_type: self.margin_type.to_raw(),
            header_footer_enabled: if self.header_footer_enabled { 1 } else { 0 },
            selection_only: if self.selection_only { 1 } else { 0 },
            landscape: if self.landscape { 1 } else { 0 },
            backgrounds_enabled: if self.backgrounds_enabled { 1 } else { 0 },
        }
    }
}

/// Each field of the CEF print record is the setting of the same name: each
/// margin is the one of the same side, the page size and scale are kept, the
/// margin type is its `cef_pdf_print_margin_type_t` code and each flag a C
/// boolean.
pub proof fn lemma_pdf_print_settings_fields(s: PDFPrintSettings)
    ensures
        raw_of_pdf_print_settings(s).header_footer_title == s.header_footer_title,
        raw_of_pdf_print_settings(s).header_footer_url == s.header_footer_url,
        raw_of_pdf_print_settings(s).page_width == s.page_width,
        raw_of_pdf_print_settings(s).page_height == s.page_height,
        raw_of_pdf_print_settings(s).scale_factor == s.scale_factor,
        raw_of_pdf_print_settings(s).margin_top == s.margin_top,
        raw_of_pdf_print_settings(s).margin_right == s.margin_right,
        raw_of_pdf_print_settings(s).margin_bottom == s.margin_bottom,
        raw_of_pdf_print_settings(s).margin_left == s.margin_left,
        raw_of_pdf_print_settings(s).margin_type == pdf_print_margin_code(s.margin_type),
        raw_of_pdf_print_settings(s).header_footer_enabled == (if s.header_footer_enabled { 1i32 } else { 0i32 }),
        raw_of_pdf_print_settings(s).selection_only == (if s.selection_only { 1i32 } else { 0i32 }),
        raw_of_pdf_print_settings(s).landscape == (if s.landscape { 1i32 } else { 0i32 }),
        raw_of_pdf_print_settings(s).backgrounds_enabled == (if s.backgrounds_enabled { 1i32 } else { 0i32 }),
{
}

/// The `cef_pdf_print_margin_type_t` codes: default 0, none 1, minimum 2,
/// custom 3.
pub proof fn lemma_pdf_print_margin_codes()
    ensures
        pdf_print_margin_code(PDFPrintMargin::Default) == 0,
        pdf_print_margin_code(PDFPrintMargin::NoMargin) == 1,
        pdf_print_margin_code(PDFPrintMargin::Minimum) == 2,
        pdf_print_margin_code(PDFPrintMargin::Custom) == 3,
{
}

} // verus!
