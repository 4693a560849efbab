//! Axes and per-axis value pairs.
use vstd::prelude::*;

verus! {

/// One of the two absolute directions of a grid: the row axis runs
/// vertically, the column axis horizontally.
#[derive(Clone, Copy, Debug, PartialEq, Eq, Structural)]
pub enum AbsoluteAxis {
    /// The horizontal (inline/column-count) direction.
    Horizontal,
    /// The vertical (block/row-count) direction.
    Vertical,
}

/// A pair of values, one for each absolute axis.
#[derive(Clone, Copy, Debug)]
pub struct Size<T> {
    /// The value for the horizontal axis.
    pub width: T,
    /// The value for the vertical axis.
    pub height: T,
}

impl<T: Copy> Size<T> {
    /// The component of this pair that lies on `axis`.
    pub open spec fn spec_get_abs(self, axis: AbsoluteAxis) -> T {
        match axis {
            AbsoluteAxis::Horizontal => self.width,
            AbsoluteAxis::Vertical => self.height,
        }
    }

    /// Select the component of this pair that lies on `axis`.
    pub fn get_abs(&self, axis: AbsoluteAxis) -> (r: T)
        ensures
            r == self.spec_get_abs(axis),
    {
        match axis {
            AbsoluteAxis::Horizontal => self.width,
            AbsoluteAxis::Vertical => self.height,
        }
    }
}

} // verus!
