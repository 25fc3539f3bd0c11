use vstd::prelude::*;

use crate::seg_index::{
    spec_segment_count, spec_segment_pair, spec_segment_pairs, PlineSegIndexIterator,
};
use crate::vertex::{PlineVertex, Vector2};

verus! {

/// Index after `i` on a ring of `n` indexes.
pub open spec fn spec_next_wrapping_index(n: int, i: int) -> int {
    if i + 1 >= n {
        0
    } else {
        i + 1
    }
}

/// Index before `i` on a ring of `n` indexes.
pub open spec fn spec_prev_wrapping_index(n: int, i: int) -> int {
    if i == 0 {
        n - 1
    } else {
        i - 1
    }
}

/// Index reached by stepping `offset` places forward from `start` on a ring of `n` indexes,
/// for `offset <= n`.
pub open spec fn spec_fwd_wrapping_index(n: nat, start: int, offset: int) -> int {
    if start + offset < n {
        start + offset
    } else {
        start + offset - n
    }
}

/// Number of forward steps from `start` to `end` on a ring of `n` indexes.
pub open spec fn spec_fwd_wrapping_dist(n: nat, start: int, end: int) -> int {
    if start <= end {
        end - start
    } else {
        n - start + end
    }
}

/// `f` accepts every scalar.
pub open spec fn spec_scalar_total<T, N: Fn(T) -> T>(f: N) -> bool {
    forall|x: T| #[trigger] f.requires((x,))
}

/// Applying `neg` twice gives back the value it started from, as IEEE 754 negation (a flip of
/// the sign bit) does.
pub open spec fn spec_involutive<T, N: Fn(T) -> T>(neg: N) -> bool {
    forall|x: T, m: T, y: T|
        #![trigger neg.ensures((x,), m), neg.ensures((m,), y)]
        neg.ensures((x,), m) && neg.ensures((m,), y) ==> y == x
}

/// `inv` is `vs` with its direction reversed: the vertex order is reversed, and each bulge moves
/// to the vertex that now starts its segment, with its sign flipped by `neg`. The last vertex of
/// an open polyline starts no segment and keeps the bulge of the vertex that lands there.
pub open spec fn spec_is_inversion<T, N: Fn(T) -> T>(neg: N, inv: Seq<PlineVertex<T>>, vs: Seq<PlineVertex<T>>, closed: bool) -> bool {
    let n = vs.len();
    &&& inv.len() == n
    &&& n < 2 ==> inv == vs
    &&& n >= 2 ==> forall|j: int|
        0 <= j < n ==> {
            &&& (#[trigger] inv[j]).x == vs[n - 1 - j].x
            &&& inv[j].y == vs[n - 1 - j].y
            &&& j < n - 1 ==> neg.ensures((vs[n - 2 - j].bulge,), inv[j].bulge)
            &&& j == n - 1 && closed ==> neg.ensures((vs[n - 1].bulge,), inv[j].bulge)
            &&& j == n - 1 && !closed ==> inv[j].bulge == vs[0].bulge
        }
}

/// Polyline: a sequence of vertexes, each starting a line or arc segment that ends at the next
/// vertex. When closed, the last vertex starts a segment that ends at the first.
#[derive(Debug, Clone)]
pub struct Polyline<T> {
    pub vertex_data: Vec<PlineVertex<T>>,
    pub is_closed: bool,
}

impl<T: Copy> Polyline<T> {
    pub open spec fn spec_vertexes(&self) -> Seq<PlineVertex<T>> {
        self.vertex_data@
    }

    pub open spec fn spec_len(&self) -> nat {
        self.vertex_data@.len()
    }

    pub open spec fn spec_segment_count(&self) -> nat {
        spec_segment_count(self.spec_len(), self.is_closed)
    }

    /// Vertex pair of segment `k`.
    pub open spec fn spec_segment(&self, k: int) -> (PlineVertex<T>, PlineVertex<T>) {
        let p = spec_segment_pair(self.spec_len(), self.is_closed, k);
        (self.vertex_data@[p.0], self.vertex_data@[p.1])
    }

    /// Empty open polyline.
    pub fn new() -> (r: Self)
        ensures
            r.spec_len() == 0,
            !r.is_closed,
    {
        Polyline { vertex_data: Vec::new(), is_closed: false }
    }

    /// Empty closed polyline.
    pub fn new_closed() -> (r: Self)
        ensures
            r.spec_len() == 0,
            r.is_closed,
    {
        Polyline { vertex_data: Vec::new(), is_closed: true }
    }

    /// Empty polyline with room for `capacity` vertexes.
    pub fn with_capacity(capacity: usize, is_closed: bool) -> (r: Self)
        ensures
            r.spec_len() == 0,
            r.is_closed == is_closed,
    {
        Polyline { vertex_data: Vec::with_capacity(capacity), is_closed }
    }

    /// Polyline holding the given vertexes.
    pub fn from_vertexes(vertex_data: Vec<PlineVertex<T>>, is_closed: bool) -> (r: Self)
        ensures
            r.vertex_data@ == vertex_data@,
            r.is_closed == is_closed,
    {
        Polyline { vertex_data, is_closed }
    }

    pub fn vertex_count(&self) -> (r: usize)
        ensures
            r == self.spec_len(),
    {
        self.vertex_data.len()
    }

    pub fn is_closed(&self) -> (r: bool)
        ensures
            r == self.is_closed,
    {
        self.is_closed
    }

    pub fn is_empty(&self) -> (r: bool)
        ensures
            r == (self.spec_len() == 0),
    {
        self.vertex_data.len() == 0
    }

    /// Vertex at `index`, or `None` when `index` is out of range.
    pub fn get(&self, index: usize) -> (r: Option<PlineVertex<T>>)
        ensures
            index < self.spec_len() ==> r == Some(self.vertex_data@[index as int]),
            index >= self.spec_len() ==> r.is_none(),
    {
        if index < self.vertex_data.len() {
            Some(self.vertex_data[index])
        } else {
            None
        }
    }

    /// Vertex at `index`, which must be in range.
    pub fn at(&self, index: usize) -> (r: PlineVertex<T>)
        requires
            index < self.spec_len(),
        ensures
            r == self.vertex_data@[index as int],
    {
        self.vertex_data[index]
    }

    /// Last vertex, or `None` when there is none.
    pub fn last(&self) -> (r: Option<PlineVertex<T>>)
        ensures
            self.spec_len() == 0 ==> r.is_none(),
            self.spec_len() > 0 ==> r == Some(self.vertex_data@.last()),
    {
        let n = self.vertex_data.len();
        if n == 0 {
            None
        } else {
            Some(self.vertex_data[n - 1])
        }
    }

    /// Number of segments: none below two vertexes, one per vertex when closed, one less when
    /// open.
    pub fn segment_count(&self) -> (r: usize)
        ensures
            r == self.spec_segment_count(),
    {
        let vc = self.vertex_data.len();
        if vc < 2 {
            0
        } else if self.is_closed {
            vc
        } else {
            vc - 1
        }
    }

    /// Iterator over the vertex index pairs of all segments, from `(0, 1)` to `(n - 2, n - 1)`,
    /// followed by `(n - 1, 0)` when closed.
    pub fn iter_segment_indexes(&self) -> (r: PlineSegIndexIterator)
        ensures
            r.spec_wf(),
            r.spec_pairs() == spec_segment_pairs(self.spec_len(), self.is_closed),
    {
        PlineSegIndexIterator::new(self.vertex_data.len(), self.is_closed)
    }

    /// Index after `i`, wrapping to 0 past the last vertex.
    pub fn next_wrapping_index(&self, i: usize) -> (r: usize)
        ensures
            r == spec_next_wrapping_index(self.spec_len() as int, i as int),
    {
        let n = self.vertex_data.len();
        if i >= n {
            0
        } else if i + 1 >= n {
            0
        } else {
            i + 1
        }
    }

    /// Index before `i`, wrapping to the last vertex before 0.
    pub fn prev_wrapping_index(&self, i: usize) -> (r: usize)
        requires
            i > 0 || self.spec_len() > 0,
        ensures
            r == spec_prev_wrapping_index(self.spec_len() as int, i as int),
    {
        if i == 0 {
            self.vertex_data.len() - 1
        } else {
            i - 1
        }
    }

    /// Number of forward wrapping steps from `start_index` to `end_index`.
    pub fn fwd_wrapping_dist(&self, start_index: usize, end_index: usize) -> (r: usize)
        requires
            start_index < self.spec_len(),
        ensures
            r == spec_fwd_wrapping_dist(self.spec_len(), start_index as int, end_index as int),
    {
        let vc = self.vertex_data.len();
        if start_index <= end_index {
            end_index - start_index
        } else {
            vc - start_index + end_index
        }
    }

    /// Index `offset` forward wrapping steps from `start_index`; `offset` wraps at most once.
    pub fn fwd_wrapping_index(&self, start_index: usize, offset: usize) -> (r: usize)
        requires
            start_index < self.spec_len(),
            offset <= self.spec_len(),
        ensures
            r == spec_fwd_wrapping_index(self.spec_len(), start_index as int, offset as int),
            r < self.spec_len(),
    {
        let vc = self.vertex_data.len();
        if offset < vc - start_index {
            start_index + offset
        } else {
            offset - (vc - start_index)
        }
    }

    /// All segments as vertex pairs, in the order of `iter_segment_indexes`.
    pub fn segments(&self) -> (r: Vec<(PlineVertex<T>, PlineVertex<T>)>)
        ensures
            r@.len() == self.spec_segment_count(),
            forall|k: int| 0 <= k < r@.len() ==> #[trigger] r@[k] == self.spec_segment(k),
    {
        let mut result: Vec<(PlineVertex<T>, PlineVertex<T>)> = Vec::new();
        let ln = self.vertex_data.len();
        if ln < 2 {
            return result;
        }
        let mut i: usize = 0;
        while i + 1 < ln
            invariant
                ln == self.spec_len(),
                ln >= 2,
                i + 1 <= ln,
                result@.len() == i,
                forall|k: int| 0 <= k < i ==> #[trigger] result@[k] == self.spec_segment(k),
            decreases ln - i,
        {
            result.push((self.vertex_data[i], self.vertex_data[i + 1]));
            i = i + 1;
        }
        if self.is_closed {
            result.push((self.vertex_data[ln - 1], self.vertex_data[0]));
        }
        result
    }

    /// Replace the vertex at `index`.
    pub fn set_vertex(&mut self, index: usize, vertex: PlineVertex<T>)
        requires
            index < old(self).spec_len(),
        ensures
            final(self).vertex_data@ == old(self).vertex_data@.update(index as int, vertex),
            final(self).is_closed == old(self).is_closed,
    {
        self.vertex_data.set(index, vertex);
    }

    /// Replace the vertex at `index` by one with the values given.
    pub fn set(&mut self, index: usize, x: T, y: T, bulge: T)
        requires
            index < old(self).spec_len(),
        ensures
            final(self).vertex_data@ == old(self).vertex_data@.update(
                index as int,
                PlineVertex { x, y, bulge },
            ),
            final(self).is_closed == old(self).is_closed,
    {
        self.set_vertex(index, PlineVertex::new(x, y, bulge));
    }

    /// Insert a vertex at `index`, moving the later ones back.
    pub fn insert_vertex(&mut self, index: usize, vertex: PlineVertex<T>)
        requires
            index <= old(self).spec_len(),
        ensures
            final(self).vertex_data@ == old(self).vertex_data@.insert(index as int, vertex),
            final(self).is_closed == old(self).is_closed,
    {
        self.vertex_data.insert(index, vertex);
    }

    /// Insert a vertex with the values given at `index`.
    pub fn insert(&mut self, index: usize, x: T, y: T, bulge: T)
        requires
            index <= old(self).spec_len(),
        ensures
            final(self).vertex_data@ == old(self).vertex_data@.insert(
                index as int,
                PlineVertex { x, y, bulge },
            ),
            final(self).is_closed == old(self).is_closed,
    {
        self.insert_vertex(index, PlineVertex::new(x, y, bulge));
    }

    /// Remove and return the vertex at `index`.
    pub fn remove(&mut self, index: usize) -> (r: PlineVertex<T>)
        requires
            index < old(self).spec_len(),
        ensures
            r == old(self).vertex_data@[index as int],
            final(self).vertex_data@ == old(self).vertex_data@.remove(index as int),
            final(self).is_closed == old(self).is_closed,
    {
        self.vertex_data.remove(index)
    }

    /// Remove and return the last vertex.
    pub fn remove_last(&mut self) -> (r: PlineVertex<T>)
        requires
            old(self).spec_len() > 0,
        ensures
            r == old(self).vertex_data@.last(),
            final(self).vertex_data@ == old(self).vertex_data@.drop_last(),
            final(self).is_closed == old(self).is_closed,
    {
        let n = self.vertex_data.len();
        let r = self.vertex_data.remove(n - 1);
        assert(self.vertex_data@ =~= old(self).vertex_data@.drop_last());
        r
    }

    /// Remove all vertexes.
    pub fn clear(&mut self)
        ensures
            final(self).spec_len() == 0,
            final(self).is_closed == old(self).is_closed,
    {
        self.vertex_data.clear();
    }

    /// Append a vertex.
    pub fn add_vertex(&mut self, vertex: PlineVertex<T>)
        ensures
            final(self).vertex_data@ == old(self).vertex_data@.push(vertex),
            final(self).is_closed == old(self).is_closed,
    {
        self.vertex_data.push(vertex);
    }

    /// Append a vertex with the values given.
    pub fn add(&mut self, x: T, y: T, bulge: T)
        ensures
            final(self).vertex_data@ == old(self).vertex_data@.push(PlineVertex { x, y, bulge }),
            final(self).is_closed == old(self).is_closed,
    {
        self.vertex_data.push(PlineVertex::new(x, y, bulge));
    }

    /// Append a vertex given as `[x, y, bulge]`.
    pub fn add_from_array(&mut self, data: [T; 3])
        ensures
            final(self).vertex_data@ == old(self).vertex_data@.push(
                PlineVertex { x: data@[0], y: data@[1], bulge: data@[2] },
            ),
            final(self).is_closed == old(self).is_closed,
    {
        self.add(data[0], data[1], data[2]);
    }

    pub fn set_is_closed(&mut self, is_closed: bool)
        ensures
            final(self).vertex_data@ == old(self).vertex_data@,
            final(self).is_closed == is_closed,
    {
        self.is_closed = is_closed;
    }

    /// Reserve room for `additional` more vertexes; the vertexes are unchanged.
    pub fn reserve(&mut self, additional: usize)
        ensures
            final(self).vertex_data@ == old(self).vertex_data@,
            final(self).is_closed == old(self).is_closed,
    {
        self.vertex_data.reserve(additional);
    }

    /// Append all the given vertexes, in order.
    pub fn extend_vertexes(&mut self, vertexes: &Vec<PlineVertex<T>>)
        ensures
            final(self).vertex_data@ == old(self).vertex_data@ + vertexes@,
            final(self).is_closed == old(self).is_closed,
    {
        let mut i: usize = 0;
        while i < vertexes.len()
            invariant
                i <= vertexes@.len(),
                self.vertex_data@ == old(self).vertex_data@ + vertexes@.subrange(0, i as int),
                self.is_closed == old(self).is_closed,
            decreases vertexes@.len() - i,
        {
            self.vertex_data.push(vertexes[i]);
            i = i + 1;
            assert(vertexes@.subrange(0, i as int) =~= vertexes@.subrange(0, i - 1).push(
                vertexes@[i - 1],
            ));
        }
        assert(vertexes@.subrange(0, i as int) =~= vertexes@);
    }

    /// Append all the vertexes of `other`, in order.
    pub fn extend(&mut self, other: &Polyline<T>)
        ensures
            final(self).vertex_data@ == old(self).vertex_data@ + other.vertex_data@,
            final(self).is_closed == old(self).is_closed,
    {
        self.extend_vertexes(&other.vertex_data);
    }

    /// Copy of this closed polyline's vertexes starting at `start`: `start..n` followed by
    /// `0..start`.
    pub fn vertexes_starting_at(&self, start: usize) -> (r: Vec<PlineVertex<T>>)
        requires
            start <= self.spec_len(),
        ensures
            r@ == self.vertex_data@.subrange(start as int, self.spec_len() as int)
                + self.vertex_data@.subrange(0, start as int),
    {
        let n = self.vertex_data.len();
        let mut result: Vec<PlineVertex<T>> = Vec::with_capacity(n);
        let mut i: usize = start;
        while i < n
            invariant
                n == self.spec_len(),
                start <= i <= n,
                result@ == self.vertex_data@.subrange(start as int, i as int),
            decreases n - i,
        {
            result.push(self.vertex_data[i]);
            i = i + 1;
            assert(result@ =~= self.vertex_data@.subrange(start as int, i as int));
        }
        let ghost head = result@;
        let mut j: usize = 0;
        while j < start
            invariant
                n == self.spec_len(),
                start <= n,
                j <= start,
                head == self.vertex_data@.subrange(start as int, n as int),
                result@ == head + self.vertex_data@.subrange(0, j as int),
            decreases start - j,
        {
            result.push(self.vertex_data[j]);
            j = j + 1;
            assert(result@ =~= head + self.vertex_data@.subrange(0, j as int));
        }
        result
    }
}

/// Construction of empty polylines.
pub trait PolylineCreation: Sized {
    /// `self` holds no vertexes and is closed exactly when `is_closed` is set.
    spec fn spec_empty_with(&self, is_closed: bool) -> bool;

    fn with_capacity(capacity: usize, is_closed: bool) -> (r: Self)
        ensures
            r.spec_empty_with(is_closed),
    ;

    /// Empty open polyline.
    fn empty() -> (r: Self)
        ensures
            r.spec_empty_with(false),
    {
        Self::with_capacity(0, false)
    }
}

impl<T: Copy> PolylineCreation for Polyline<T> {
    open spec fn spec_empty_with(&self, is_closed: bool) -> bool {
        self.vertex_data@.len() == 0 && self.is_closed == is_closed
    }

    fn with_capacity(capacity: usize, is_closed: bool) -> (r: Self) {
        Polyline { vertex_data: Vec::with_capacity(capacity), is_closed }
    }
}

/// Read access to a polyline whose vertexes lie in one contiguous slice.
pub trait PolylineContiguousStorage {
    type Num;

    /// The vertexes, in order.
    spec fn spec_storage_vertexes(&self) -> Seq<PlineVertex<Self::Num>>;

    /// Whether the polyline is closed.
    spec fn spec_storage_closed(&self) -> bool;

    fn as_slice(&self) -> (r: &[PlineVertex<Self::Num>])
        ensures
            r@ == self.spec_storage_vertexes(),
    ;

    fn is_closed(&self) -> (r: bool)
        ensures
            r == self.spec_storage_closed(),
    ;

    /// Number of vertexes.
    fn len(&self) -> (r: usize)
        ensures
            r == self.spec_storage_vertexes().len(),
    {
        self.as_slice().len()
    }
}

impl<T: Copy> PolylineContiguousStorage for Polyline<T> {
    type Num = T;

    open spec fn spec_storage_vertexes(&self) -> Seq<PlineVertex<T>> {
        self.vertex_data@
    }

    open spec fn spec_storage_closed(&self) -> bool {
        self.is_closed
    }

    fn as_slice(&self) -> (r: &[PlineVertex<T>]) {
        self.vertex_data.as_slice()
    }

    fn is_closed(&self) -> (r: bool) {
        self.is_closed
    }
}

impl<T: Copy> Polyline<T> {
    /// Reverse the direction of the polyline in place: reverse the vertex order, then move each
    /// bulge back by one position with its sign flipped by `neg`, so that the arc that began at
    /// vertex `i` begins at its new predecessor. A closed polyline turns from clockwise to
    /// counter clockwise or back.
    pub fn invert_direction_mut<N: Fn(T) -> T>(&mut self, neg: &N)
        requires
            spec_scalar_total(*neg),
        ensures
            spec_is_inversion(*neg, final(self).vertex_data@, old(self).vertex_data@, old(self).is_closed),
            final(self).is_closed == old(self).is_closed,
    {
        let vc = self.vertex_data.len();
        if vc < 2 {
            return;
        }
        let ghost orig = self.vertex_data@;
        let mut start: usize = 0;
        let mut end: usize = vc - 1;
        while start < end
            invariant
                self.vertex_data@.len() == vc,
                vc >= 2,
                start + end == vc - 1,
                start <= end + 1,
                forall|k: int|
                    0 <= k < vc ==> #[trigger] self.vertex_data@[k] == if k < start || k > end {
                        orig[vc - 1 - k]
                    } else {
                        orig[k]
                    },
                self.is_closed == old(self).is_closed,
            decreases vc - start,
        {
            let s = self.vertex_data[start];
            let e = self.vertex_data[end];
            self.vertex_data.set(start, e);
            self.vertex_data.set(end, s);
            start = start + 1;
            end = end - 1;
        }
        let ghost rev = self.vertex_data@;
        assert forall|k: int| 0 <= k < vc implies #[trigger] rev[k] == orig[vc - 1 - k] by {}
        let first_bulge = self.vertex_data[0].bulge;
        let mut i: usize = 1;
        while i < vc
            invariant
                self.vertex_data@.len() == vc,
                vc >= 2,
                1 <= i <= vc,
                first_bulge == orig[vc - 1].bulge,
                forall|k: int| 0 <= k < vc ==> #[trigger] rev[k] == orig[vc - 1 - k],
                forall|k: int|
                    0 <= k < vc ==> {
                        &&& (#[trigger] self.vertex_data@[k]).x == rev[k].x
                        &&& self.vertex_data@[k].y == rev[k].y
                        &&& k < i - 1 ==> neg.ensures((rev[k + 1].bulge,), self.vertex_data@[k].bulge)
                        &&& k >= i - 1 ==> self.vertex_data@[k].bulge == rev[k].bulge
                    },
                self.is_closed == old(self).is_closed,
                spec_scalar_total(*neg),
            decreases vc - i,
        {
            let ghost before = self.vertex_data@;
            let b = neg(self.vertex_data[i].bulge);
            let v = self.vertex_data[i - 1].with_bulge(b);
            self.vertex_data.set(i - 1, v);
            assert(before[i as int].bulge == rev[i as int].bulge);
            i = i + 1;
        }
        if self.is_closed {
            let b = neg(first_bulge);
            let v = self.vertex_data[vc - 1].with_bulge(b);
            self.vertex_data.set(vc - 1, v);
        }
        assert forall|j: int| 0 <= j < vc && j < vc - 1 implies neg.ensures((orig[vc - 2 - j].bulge,), #[trigger] self.vertex_data@[j].bulge) by {
            assert(rev[j + 1] == orig[vc - 1 - (j + 1)]);
        }
    }
}

impl<T: Copy> Polyline<T> {
    /// Scale the polyline uniformly about the origin: `scale` maps each coordinate of every
    /// vertex to its scaled value; bulges, which are angles, stay.
    pub fn scale_mut<S: Fn(T) -> T>(&mut self, scale: &S)
        requires
            spec_scalar_total(*scale),
        ensures
            final(self).vertex_data@.len() == old(self).vertex_data@.len(),
            final(self).is_closed == old(self).is_closed,
            forall|k: int|
                0 <= k < old(self).vertex_data@.len() ==> {
                    let (v, w) = (old(self).vertex_data@[k], #[trigger] final(self).vertex_data@[k]);
                    &&& scale.ensures((v.x,), w.x)
                    &&& scale.ensures((v.y,), w.y)
                    &&& w.bulge == v.bulge
                },
    {
        let n = self.vertex_data.len();
        let mut i: usize = 0;
        while i < n
            invariant
                n == self.vertex_data@.len(),
                n == old(self).vertex_data@.len(),
                i <= n,
                self.is_closed == old(self).is_closed,
                spec_scalar_total(*scale),
                forall|k: int|
                    0 <= k < n ==> {
                        let (v, w) = (old(self).vertex_data@[k], #[trigger] self.vertex_data@[k]);
                        &&& k < i ==> scale.ensures((v.x,), w.x) && scale.ensures((v.y,), w.y)
                            && w.bulge == v.bulge
                        &&& k >= i ==> w == v
                    },
            decreases n - i,
        {
            let v = self.vertex_data[i];
            let x = scale(v.x);
            let y = scale(v.y);
            self.vertex_data.set(i, PlineVertex { x, y, bulge: v.bulge });
            i = i + 1;
        }
    }

    /// Translate the polyline: `shift` maps the position of every vertex to its translated
    /// position; bulges stay.
    pub fn translate_mut<S: Fn(Vector2<T>) -> Vector2<T>>(&mut self, shift: &S)
        requires
            forall|p: Vector2<T>| #[trigger] shift.requires((p,)),
        ensures
            final(self).vertex_data@.len() == old(self).vertex_data@.len(),
            final(self).is_closed == old(self).is_closed,
            forall|k: int|
                0 <= k < old(self).vertex_data@.len() ==> {
                    let (v, w) = (old(self).vertex_data@[k], #[trigger] final(self).vertex_data@[k]);
                    &&& shift.ensures((v.spec_pos(),), w.spec_pos())
                    &&& w.bulge == v.bulge
                },
    {
        let n = self.vertex_data.len();
        let mut i: usize = 0;
        while i < n
            invariant
                n == self.vertex_data@.len(),
                n == old(self).vertex_data@.len(),
                i <= n,
                self.is_closed == old(self).is_closed,
                forall|p: Vector2<T>| #[trigger] shift.requires((p,)),
                forall|k: int|
                    0 <= k < n ==> {
                        let (v, w) = (old(self).vertex_data@[k], #[trigger] self.vertex_data@[k]);
                        &&& k < i ==> shift.ensures((v.spec_pos(),), w.spec_pos()) && w.bulge
                            == v.bulge
                        &&& k >= i ==> w == v
                    },
            decreases n - i,
        {
            let v = self.vertex_data[i];
            let p = shift(v.pos());
            self.vertex_data.set(i, PlineVertex { x: p.x, y: p.y, bulge: v.bulge });
            assert(self.vertex_data@[i as int].spec_pos() == p);
            i = i + 1;
        }
    }
}

/// Walking the segments of a polyline with at least two vertexes visits exactly
/// `segment_count` vertex pairs, and the last one is `(n - 1, 0)` exactly when the polyline is
/// closed.
pub proof fn lemma_segment_iteration(n: nat, closed: bool)
    requires
        n >= 2,
    ensures
        spec_segment_pairs(n, closed).len() == spec_segment_count(n, closed),
        (spec_segment_pairs(n, closed).last() == (n - 1, 0int)) <==> closed,
{
    let pairs = spec_segment_pairs(n, closed);
    if closed {
        assert(pairs.last() == spec_segment_pair(n, closed, n - 1));
    } else {
        assert(pairs.last() == spec_segment_pair(n, closed, n - 2));
    }
}

/// Reversing the direction of a polyline twice gives back every vertex position and the bulge
/// of every vertex that starts a segment, when the negation used undoes itself. The last vertex
/// of an open polyline starts no segment, and its bulge is not kept.
pub proof fn lemma_invert_round_trip<T, N: Fn(T) -> T>(
    neg: N,
    vs: Seq<PlineVertex<T>>,
    once: Seq<PlineVertex<T>>,
    twice: Seq<PlineVertex<T>>,
    closed: bool,
)
    requires
        spec_involutive(neg),
        spec_is_inversion(neg, once, vs, closed),
        spec_is_inversion(neg, twice, once, closed),
    ensures
        twice.len() == vs.len(),
        forall|j: int|
            0 <= j < vs.len() ==> #[trigger] twice[j].x == vs[j].x && twice[j].y == vs[j].y,
        forall|j: int|
            0 <= j < spec_segment_count(vs.len(), closed) ==> #[trigger] twice[j].bulge
                == vs[j].bulge,
        closed ==> twice == vs,
{
    let n = vs.len();
    if n >= 2 {
        assert forall|j: int| 0 <= j < n implies #[trigger] twice[j].x == vs[j].x && twice[j].y
            == vs[j].y by {
            assert(twice[j].x == once[n - 1 - j].x);
            assert(once[n - 1 - j].x == vs[n - 1 - (n - 1 - j)].x);
        }
        assert forall|j: int| 0 <= j < spec_segment_count(n, closed) implies #[trigger] twice[j].bulge
            == vs[j].bulge by {
            if j < n - 1 {
                assert(neg.ensures((once[n - 2 - j].bulge,), twice[j].bulge));
                assert(neg.ensures((vs[n - 2 - (n - 2 - j)].bulge,), once[n - 2 - j].bulge));
            } else {
                assert(closed);
                assert(neg.ensures((once[n - 1].bulge,), twice[n - 1].bulge));
                assert(neg.ensures((vs[n - 1].bulge,), once[n - 1].bulge));
            }
        }
        if closed {
            assert forall|j: int| 0 <= j < n implies #[trigger] twice[j] == vs[j] by {
                assert(twice[j].x == vs[j].x && twice[j].y == vs[j].y);
                assert(twice[j].bulge == vs[j].bulge);
            }
            assert(twice =~= vs);
        }
    }
}

} // verus!
