use vstd::prelude::*;

verus! {

/// "Verb" of a drag-and-drop operation as negotiated between the source and
/// destination (`cef_drag_operations_mask_t` bits).
#[derive(Debug, Clone, Copy, PartialEq, Eq, Hash)]
pub struct DragOperation {
    pub bits: u32,
}

/// The bits of all known drag operations.
pub const DRAG_OPERATIONS_ALL: u32 = 0x3F;

impl DragOperation {
    pub const NONE: u32 = 0;
    pub const COPY: u32 = 1;
    pub const LINK: u32 = 2;
    pub const GENERIC: u32 = 4;
    pub const PRIVATE: u32 = 8;
    pub const MOVE: u32 = 16;
    pub const DELETE: u32 = 32;

    /// The operations with exactly the given bits, as CEF reports them.
    pub fn from_unchecked(c: u32) -> (d: DragOperation)
        ensures
            d.bits == c,
    {
        DragOperation { bits: c }
    }

    /// The operations whose bits are set in `bits`; unknown bits are dropped.
    pub fn from_bits_truncate(bits: u32) -> (d: DragOperation)
        ensures
            d.bits == bits & DRAG_OPERATIONS_ALL,
    {
        DragOperation { bits: bits & DRAG_OPERATIONS_ALL }
    }

    /// The operation bits.
    pub fn bits(&self) -> (b: u32)
        ensures
            b == self.bits,
    {
        self.bits
    }

    /// Whether every bit of `ops` is set.
    pub fn contains(&self, ops: u32) -> (b: bool)
        ensures
            b == (self.bits & ops == ops),
    {
        self.bits & ops == ops
    }
}

} // verus!
