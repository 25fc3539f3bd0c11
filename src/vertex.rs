use vstd::prelude::*;

verus! {

/// A point or vector in the plane.
#[derive(Debug, Clone, Copy, PartialEq, Eq, Structural)]
pub struct Vector2<T> {
    pub x: T,
    pub y: T,
}

impl<T: Copy> Vector2<T> {
    pub fn new(x: T, y: T) -> (r: Self)
        ensures
            r.x == x,
            r.y == y,
    {
        Vector2 { x, y }
    }
}

/// Read access to the two coordinates of a point.
pub trait Vector2Ref {
    type Num;

    spec fn spec_x(&self) -> Self::Num;

    spec fn spec_y(&self) -> Self::Num;

    fn x(&self) -> (r: Self::Num)
        ensures
            r == self.spec_x(),
    ;

    fn y(&self) -> (r: Self::Num)
        ensures
            r == self.spec_y(),
    ;
}

/// Write access to the two coordinates of a point.
pub trait Vector2RefMut: Vector2Ref {
    fn x_mut(&mut self) -> (r: &mut Self::Num)
        ensures
            *r == old(self).spec_x(),
            final(self).spec_x() == *final(r),
            final(self).spec_y() == old(self).spec_y(),
    ;

    fn y_mut(&mut self) -> (r: &mut Self::Num)
        ensures
            *r == old(self).spec_y(),
            final(self).spec_y() == *final(r),
            final(self).spec_x() == old(self).spec_x(),
    ;
}

impl<T: Copy> Vector2Ref for Vector2<T> {
    type Num = T;

    open spec fn spec_x(&self) -> T {
        self.x
    }

    open spec fn spec_y(&self) -> T {
        self.y
    }

    fn x(&self) -> (r: T) {
        self.x
    }

    fn y(&self) -> (r: T) {
        self.y
    }
}

/// A polyline vertex: a position and the bulge of the segment that starts at it.
///
/// The bulge is `tan(theta / 4)` where `theta` is the signed angle swept by the arc to the next
/// vertex; zero means a straight line, a positive value a counter clockwise arc.
#[derive(Debug, Clone, Copy, PartialEq, Eq, Structural)]
pub struct PlineVertex<T> {
    pub x: T,
    pub y: T,
    pub bulge: T,
}

impl<T> PlineVertex<T> {
    pub open spec fn spec_pos(self) -> Vector2<T> {
        Vector2 { x: self.x, y: self.y }
    }

    pub open spec fn spec_with_bulge(self, bulge: T) -> PlineVertex<T> {
        PlineVertex { x: self.x, y: self.y, bulge }
    }
}

impl<T: Copy> PlineVertex<T> {
    pub fn new(x: T, y: T, bulge: T) -> (r: Self)
        ensures
            r == (PlineVertex { x, y, bulge }),
    {
        PlineVertex { x, y, bulge }
    }

    /// Vertex at `pos` with the given bulge.
    pub fn from_vector2(pos: Vector2<T>, bulge: T) -> (r: Self)
        ensures
            r == (PlineVertex { x: pos.x, y: pos.y, bulge }),
    {
        PlineVertex { x: pos.x, y: pos.y, bulge }
    }

    /// Position of the vertex.
    pub fn pos(&self) -> (r: Vector2<T>)
        ensures
            r == self.spec_pos(),
    {
        Vector2 { x: self.x, y: self.y }
    }

    /// The same position with another bulge.
    pub fn with_bulge(&self, bulge: T) -> (r: Self)
        ensures
            r == self.spec_with_bulge(bulge),
    {
        PlineVertex { x: self.x, y: self.y, bulge }
    }
}

impl<T: Copy> Vector2RefMut for Vector2<T> {
    fn x_mut(&mut self) -> (r: &mut T) {
        &mut self.x
    }

    fn y_mut(&mut self) -> (r: &mut T) {
        &mut self.y
    }
}

impl<T: Copy> Vector2Ref for PlineVertex<T> {
    type Num = T;

    open spec fn spec_x(&self) -> T {
        self.x
    }

    open spec fn spec_y(&self) -> T {
        self.y
    }

    fn x(&self) -> (r: T) {
        self.x
    }

    fn y(&self) -> (r: T) {
        self.y
    }
}

} // verus!
