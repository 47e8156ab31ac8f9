//! What is to be done with one window.

use vstd::prelude::*;
use crate::geometry::{Extent, Position, Rect, Size};

verus! {

/// Where a window is to stand, and the size it is to be given, if any.
///
/// A caller that applies a placement sets the size first, where there is
/// one, and the position after it.
#[derive(Clone, Copy, Debug, PartialEq, Eq)]
pub struct Placement {
    pub position: Position,
    /// The size to force on the window. `None` leaves its size as it is.
    pub size: Option<Size>,
}

impl Placement {
    /// The rectangle that the window covers once the placement is applied,
    /// for a window whose size was `outer` before.
    pub open spec fn frame(self, outer: Extent) -> Rect {
        Rect {
            origin: self.position@,
            extent: match self.size {
                Some(size) => size@,
                None => outer,
            },
        }
    }
}

} // verus!
