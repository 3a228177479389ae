use vstd::prelude::*;

verus! {

/// Whether two handles refer to the same underlying CEF object.
pub trait IsSame: Sized {
    fn is_same(&self, other: Self) -> bool;
}

} // verus!
