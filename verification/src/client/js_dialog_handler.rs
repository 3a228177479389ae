use vstd::prelude::*;

verus! {

/// Supported JavaScript dialog types.
#[derive(Debug, Clone, Copy, PartialEq, Eq)]
pub enum JsDialogType {
    Alert,
    Confirm,
    Prompt,
}

/// The `cef_jsdialog_type_t` code of a value of [JsDialogType].
pub open spec fn js_dialog_type_code(v: JsDialogType) -> u32 {
    match v {
        JsDialogType::Alert => 0,
        JsDialogType::Confirm => 1,
        JsDialogType::Prompt => 2,
    }
}

/// Each value of [JsDialogType] has its code from CEF's header.
pub proof fn lemma_js_dialog_type_codes()
    ensures
        js_dialog_type_code(JsDialogType::Alert) == 0,
        js_dialog_type_code(JsDialogType::Confirm) == 1,
        js_dialog_type_code(JsDialogType::Prompt) == 2,
{
}

impl JsDialogType {
    /// The value with a known `cef_jsdialog_type_t` code.
    pub fn from_unchecked(c: u32) -> (v: JsDialogType)
        requires
            0 <= c < 3,
        ensures
            js_dialog_type_code(v) == c,
    {
        match c {
            0 => JsDialogType::Alert,
            1 => JsDialogType::Confirm,
            _ => JsDialogType::Prompt,
        }
    }

    /// The `cef_jsdialog_type_t` code of this value.
    pub fn to_raw(&self) -> (c: u32)
        ensures
            c == js_dialog_type_code(*self),
    {
        match self {
            JsDialogType::Alert => 0,
            JsDialogType::Confirm => 1,
            JsDialogType::Prompt => 2,
        }
    }
}

} // verus!
