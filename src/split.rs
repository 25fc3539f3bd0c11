use vstd::prelude::*;

use crate::polyline::{spec_next_wrapping_index, Polyline};
use crate::repeats::spec_total;
use crate::vertex::{PlineVertex, Vector2};

verus! {

/// A segment split at a point on it.
#[derive(Debug, Clone, Copy)]
pub struct SplitResult<T> {
    /// The segment's start vertex, with the bulge of the part up to the split point.
    pub updated_start: PlineVertex<T>,
    /// The split point, with the bulge of the part from it to the segment's end.
    pub split_vertex: PlineVertex<T>,
}

/// `split` can split any segment at any point.
pub open spec fn spec_split_total<T, S: Fn(PlineVertex<T>, PlineVertex<T>, Vector2<T>) -> SplitResult<T>>(split: S) -> bool {
    forall|v1: PlineVertex<T>, v2: PlineVertex<T>, p: Vector2<T>| #[trigger] split.requires((v1, v2, p))
}

/// The vertexes of a closed polyline read from index `k` on: `vs[k..]` then `vs[..k]`.
pub open spec fn spec_rotated<T>(vs: Seq<PlineVertex<T>>, k: int) -> Seq<PlineVertex<T>> {
    vs.subrange(k, vs.len() as int) + vs.subrange(0, k)
}

/// `r` is what rotating the closed polyline `vs` to start at `point`, on segment `s`, gives
/// with the answers of `pos_equal` and `split`: when `point` lies on vertex `s` the polyline
/// starts there, when it lies on the next vertex it starts there, and otherwise the segment is
/// split at `point`, which becomes the first vertex.
pub open spec fn spec_rotate_start<T, F: Fn(Vector2<T>, Vector2<T>) -> bool, S: Fn(PlineVertex<T>, PlineVertex<T>, Vector2<T>) -> SplitResult<T>>(
    pos_equal: F,
    split: S,
    vs: Seq<PlineVertex<T>>,
    s: int,
    point: Vector2<T>,
    r: Seq<PlineVertex<T>>,
) -> bool {
    let n = vs.len() as int;
    let next = spec_next_wrapping_index(n, s);
    exists|at_start: bool|
        #[trigger] pos_equal.ensures((vs[s].spec_pos(), point), at_start) && (at_start ==> r
            == spec_rotated(vs, s)) && (!at_start ==> exists|at_next: bool|
            #[trigger] pos_equal.ensures((point, vs[next].spec_pos()), at_next) && (at_next ==> r
                == spec_rotated(vs, next)) && (!at_next ==> exists|sp: SplitResult<T>|
                #[trigger] split.ensures((vs[s], vs[next], point), sp) && r == seq![sp.split_vertex]
                    + spec_rotated(vs, next).update(n - 1, sp.updated_start)))
}

impl<T: Copy> Polyline<T> {
    /// Rotate a closed polyline so that it starts at `point`, which lies on segment
    /// `start_index`; the curve is unchanged. `None` when the polyline is open, has fewer than
    /// two vertexes, or `start_index` is out of range.
    pub fn rotate_start<F, S>(&self, start_index: usize, point: Vector2<T>, pos_equal: &F, split: &S) -> (r: Option<Polyline<T>>)
        where
            F: Fn(Vector2<T>, Vector2<T>) -> bool,
            S: Fn(PlineVertex<T>, PlineVertex<T>, Vector2<T>) -> SplitResult<T>,
        requires
            spec_total(*pos_equal),
            spec_split_total(*split),
        ensures
            !self.is_closed || self.spec_len() < 2 || start_index >= self.spec_len() ==> r.is_none(),
            self.is_closed && self.spec_len() >= 2 && start_index < self.spec_len() ==> r.is_some()
                && r.unwrap().is_closed && spec_rotate_start(
                *pos_equal,
                *split,
                self.vertex_data@,
                start_index as int,
                point,
                r.unwrap().vertex_data@,
            ),
    {
        let vc = self.vertex_data.len();
        if !self.is_closed || vc < 2 || start_index > vc - 1 {
            return None;
        }
        let ghost vs = self.vertex_data@;
        let start_v = self.vertex_data[start_index];
        let at_start = pos_equal(start_v.pos(), point);
        if at_start {
            let r = Polyline::from_vertexes(self.vertexes_starting_at(start_index), true);
            assert(pos_equal.ensures((vs[start_index as int].spec_pos(), point), at_start));
            return Some(r);
        }
        let next_index = self.next_wrapping_index(start_index);
        let ghost next = spec_next_wrapping_index(vc as int, start_index as int);
        assert(next == next_index);
        let next_v = self.vertex_data[next_index];
        let at_next = pos_equal(point, next_v.pos());
        if at_next {
            let r = Polyline::from_vertexes(self.vertexes_starting_at(next_index), true);
            assert(pos_equal.ensures((vs[start_index as int].spec_pos(), point), at_start));
            assert(pos_equal.ensures((point, vs[next].spec_pos()), at_next));
            return Some(r);
        }
        let sp = split(start_v, next_v, point);
        let mut result: Polyline<T> = Polyline::with_capacity(vc, true);
        result.vertex_data.push(sp.split_vertex);
        let rest = self.vertexes_starting_at(next_index);
        result.extend_vertexes(&rest);
        let m = result.vertex_data.len();
        result.vertex_data.set(m - 1, sp.updated_start);
        assert(result.vertex_data@ =~= seq![sp.split_vertex] + spec_rotated(vs, next_index as int).update(
            vc - 1,
            sp.updated_start,
        ));
        assert(pos_equal.ensures((vs[start_index as int].spec_pos(), point), at_start));
        assert(pos_equal.ensures((point, vs[next].spec_pos()), at_next));
        assert(split.ensures((vs[start_index as int], vs[next], point), sp));
        Some(result)
    }
}

} // verus!
