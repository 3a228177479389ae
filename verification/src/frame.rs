use vstd::prelude::*;

verus! {

/// The globally unique identifier of a frame as CEF reports it, or `None`
/// where it reports a negative value because the underlying frame does not
/// yet exist.
pub fn identifier_from_raw(id: i64) -> (r: Option<i64>)
    ensures
        r == (if id < 0 { None } else { Some(id) }),
{
    if id < 0 {
        None
    } else {
        Some(id)
    }
}

} // verus!
