use vstd::prelude::*;

use crate::vertex::Vector2;

verus! {

/// Direction of a polyline.
#[derive(Debug, Copy, Clone, PartialEq, Eq, Structural)]
pub enum PlineOrientation {
    /// The polyline is open.
    Open,
    /// The polyline is closed and runs clockwise.
    Clockwise,
    /// The polyline is closed and runs counter clockwise.
    CounterClockwise,
}

/// Closest point of a polyline to a query point.
#[derive(Debug, Copy, Clone)]
pub struct ClosestPointResult<T> {
    /// Start vertex index of the closest segment.
    pub seg_start_index: usize,
    /// Closest point on that segment.
    pub seg_point: Vector2<T>,
    /// Distance from the query point to `seg_point`.
    pub distance: T,
}

} // verus!
