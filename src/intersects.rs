use vstd::prelude::*;

use crate::vertex::Vector2;

verus! {

/// Which self intersects of a polyline to report.
#[derive(Debug, Clone, Copy, PartialEq, Eq, Hash, PartialOrd, Ord, Structural)]
pub enum SelfIntersectsInclude {
    /// Local and global ones.
    All,
    /// Only those between two adjacent segments.
    Local,
    /// Only those between two segments that are not adjacent.
    Global,
}

/// Two polylines meet at a single point.
#[derive(Debug, Clone, Copy)]
pub struct PlineBasicIntersect<T> {
    /// Start vertex index of the segment of the first polyline.
    pub start_index1: usize,
    /// Start vertex index of the segment of the second polyline.
    pub start_index2: usize,
    pub point: Vector2<T>,
}

impl<T: Copy> PlineBasicIntersect<T> {
    pub fn new(start_index1: usize, start_index2: usize, point: Vector2<T>) -> (r: Self)
        ensures
            r.start_index1 == start_index1,
            r.start_index2 == start_index2,
            r.point == point,
    {
        PlineBasicIntersect { start_index1, start_index2, point }
    }
}

/// Two polylines run along each other between two points.
#[derive(Debug, Clone, Copy)]
pub struct PlineOverlappingIntersect<T> {
    /// Start vertex index of the segment of the first polyline.
    pub start_index1: usize,
    /// Start vertex index of the segment of the second polyline.
    pub start_index2: usize,
    /// End of the overlap closest to the start of the second segment.
    pub point1: Vector2<T>,
    /// End of the overlap furthest from the start of the second segment.
    pub point2: Vector2<T>,
}

impl<T: Copy> PlineOverlappingIntersect<T> {
    pub fn new(start_index1: usize, start_index2: usize, point1: Vector2<T>, point2: Vector2<T>) -> (r: Self)
        ensures
            r.start_index1 == start_index1,
            r.start_index2 == start_index2,
            r.point1 == point1,
            r.point2 == point2,
    {
        PlineOverlappingIntersect { start_index1, start_index2, point1, point2 }
    }
}

/// An intersect of either kind.
#[derive(Debug, Clone, Copy)]
pub enum PlineIntersect<T> {
    Basic(PlineBasicIntersect<T>),
    Overlapping(PlineOverlappingIntersect<T>),
}

impl<T: Copy> PlineIntersect<T> {
    pub fn new_basic(start_index1: usize, start_index2: usize, point: Vector2<T>) -> (r: Self)
        ensures
            r == PlineIntersect::Basic(PlineBasicIntersect { start_index1, start_index2, point }),
    {
        PlineIntersect::Basic(PlineBasicIntersect::new(start_index1, start_index2, point))
    }

    pub fn new_overlapping(start_index1: usize, start_index2: usize, point1: Vector2<T>, point2: Vector2<T>) -> (r: Self)
        ensures
            r == PlineIntersect::Overlapping(
                PlineOverlappingIntersect { start_index1, start_index2, point1, point2 },
            ),
    {
        PlineIntersect::Overlapping(
            PlineOverlappingIntersect::new(start_index1, start_index2, point1, point2),
        )
    }
}

/// The intersects found between two polylines, by kind.
#[derive(Debug, Clone)]
pub struct PlineIntersectsCollection<T> {
    pub basic_intersects: Vec<PlineBasicIntersect<T>>,
    pub overlapping_intersects: Vec<PlineOverlappingIntersect<T>>,
}

impl<T: Copy> PlineIntersectsCollection<T> {
    pub fn new(
        basic_intersects: Vec<PlineBasicIntersect<T>>,
        overlapping_intersects: Vec<PlineOverlappingIntersect<T>>,
    ) -> (r: Self)
        ensures
            r.basic_intersects@ == basic_intersects@,
            r.overlapping_intersects@ == overlapping_intersects@,
    {
        PlineIntersectsCollection { basic_intersects, overlapping_intersects }
    }

    pub fn new_empty() -> (r: Self)
        ensures
            r.basic_intersects@.len() == 0,
            r.overlapping_intersects@.len() == 0,
    {
        Self::new(Vec::new(), Vec::new())
    }
}

} // verus!
