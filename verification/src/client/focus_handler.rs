use vstd::prelude::*;

verus! {

/// Focus sources.
#[derive(Debug, Clone, Copy, PartialEq, Eq)]
pub enum FocusSource {
    /// The source is explicit navigation via the API (LoadURL(), etc).
    Navigation,
    /// The source is a system-generated focus event.
    System,
}

/// The `cef_focus_source_t` code of a value of [FocusSource].
pub open spec fn focus_source_code(v: FocusSource) -> u32 {
    match v {
        FocusSource::Navigation => 0,
        FocusSource::System => 1,
    }
}

/// Each value of [FocusSource] has its code from CEF's header.
pub proof fn lemma_focus_source_codes()
    ensures
        focus_source_code(FocusSource::Navigation) == 0,
        focus_source_code(FocusSource::System) == 1,
{
}

impl FocusSource {
    /// The value with a known `cef_focus_source_t` code.
    pub fn from_unchecked(c: u32) -> (v: FocusSource)
        requires
            0 <= c < 2,
        ensures
            focus_source_code(v) == c,
    {
        match c {
            0 => FocusSource::Navigation,
            _ => FocusSource::System,
        }
    }

    /// The `cef_focus_source_t` code of this value.
    pub fn to_raw(&self) -> (c: u32)
        ensures
            c == focus_source_code(*self),
    {
        match self {
            FocusSource::Navigation => 0,
            FocusSource::System => 1,
        }
    }
}

} // verus!
