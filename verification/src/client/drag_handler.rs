//! Values of drag-and-drop handling.

pub use crate::client::life_span_handler::{PopupFeatures, RawPopupFeatures};
use vstd::prelude::*;
use crate::values::Rect;

verus! {

/// A region of a frame that can be dragged (or that cannot), as CEF reports
/// it: its bounds and a C boolean.
#[derive(Debug, Clone, Copy, PartialEq, Eq)]
pub struct DraggableRegion {
    pub bounds: Rect,
    pub draggable: i32,
}

impl DraggableRegion {
    /// The bounds of the region.
    pub fn bounds(&self) -> (r: Rect)
        ensures
            r == self.bounds,
    {
        self.bounds
    }

    /// Whether the region can be dragged.
    pub fn draggable(&self) -> (b: bool)
        ensures
            b == (self.draggable != 0),
    {
        self.draggable != 0
    }
}

} // verus!
