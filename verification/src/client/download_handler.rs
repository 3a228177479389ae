use vstd::prelude::*;

verus! {

/// The rough percent complete of a download as CEF reports it: `None` where
/// it reports -1 because the total size is unknown, the reported value
/// (truncated to a byte) otherwise.
pub fn percent_complete_from_raw(percent: i32) -> (p: Option<u8>)
    ensures
        p == (if percent == -1 { None } else { Some(percent as u8) }),
{
    if percent == -1 {
        None
    } else {
        Some(percent as u8)
    }
}

} // verus!
