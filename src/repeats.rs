use vstd::prelude::*;

use crate::polyline::Polyline;
use crate::vertex::{PlineVertex, Vector2};

verus! {

/// Append `v` to `acc`, or, when `same` says that `v` lies on the last vertex of `acc`, give
/// that last vertex the bulge of `v` instead.
pub open spec fn spec_merge_step<T>(acc: Seq<PlineVertex<T>>, v: PlineVertex<T>, same: bool) -> Seq<PlineVertex<T>> {
    if acc.len() > 0 && same {
        acc.update(acc.len() - 1, acc.last().spec_with_bulge(v.bulge))
    } else {
        acc.push(v)
    }
}

/// Merging the vertexes `vs` onto `acc0` one by one, where `same[k]` is the answer that
/// `pos_equal` gave for the position of the last vertex merged so far and that of `vs[k]`
/// (false when nothing has been merged yet). `None` when the answers do not fit `pos_equal`.
pub open spec fn spec_merge_run<T, F: Fn(Vector2<T>, Vector2<T>) -> bool>(
    pos_equal: F,
    acc0: Seq<PlineVertex<T>>,
    vs: Seq<PlineVertex<T>>,
    same: Seq<bool>,
) -> Option<Seq<PlineVertex<T>>>
    decreases vs.len(),
{
    if same.len() != vs.len() {
        None
    } else if vs.len() == 0 {
        Some(acc0)
    } else {
        match spec_merge_run(pos_equal, acc0, vs.drop_last(), same.drop_last()) {
            None => None,
            Some(acc) => {
                let fits = if acc.len() > 0 {
                    pos_equal.ensures((acc.last().spec_pos(), vs.last().spec_pos()), same.last())
                } else {
                    !same.last()
                };
                if fits {
                    Some(spec_merge_step(acc, vs.last(), same.last()))
                } else {
                    None
                }
            },
        }
    }
}

/// `pos_equal` can compare any two positions.
pub open spec fn spec_total<T, F: Fn(Vector2<T>, Vector2<T>) -> bool>(pos_equal: F) -> bool {
    forall|a: Vector2<T>, b: Vector2<T>| #[trigger] pos_equal.requires((a, b))
}

proof fn lemma_merge_run_push<T, F: Fn(Vector2<T>, Vector2<T>) -> bool>(
    pos_equal: F,
    acc0: Seq<PlineVertex<T>>,
    vs: Seq<PlineVertex<T>>,
    same: Seq<bool>,
    acc: Seq<PlineVertex<T>>,
    v: PlineVertex<T>,
    b: bool,
)
    requires
        spec_merge_run(pos_equal, acc0, vs, same) == Some(acc),
        acc.len() > 0 ==> pos_equal.ensures((acc.last().spec_pos(), v.spec_pos()), b),
        acc.len() == 0 ==> !b,
    ensures
        spec_merge_run(pos_equal, acc0, vs.push(v), same.push(b)) == Some(
            spec_merge_step(acc, v, b),
        ),
{
    assert(vs.push(v).drop_last() =~= vs);
    assert(same.push(b).drop_last() =~= same);
}

/// Merge `vs[start..]` onto `target` with `spec_merge_step`; the result says whether any vertex
/// was found to lie on its predecessor.
pub(crate) fn merge_onto<T: Copy, F: Fn(Vector2<T>, Vector2<T>) -> bool>(
    target: &mut Polyline<T>,
    vs: &Vec<PlineVertex<T>>,
    start: usize,
    pos_equal: &F,
) -> (any_same: bool)
    requires
        spec_total(*pos_equal),
        start <= vs@.len(),
    ensures
        final(target).is_closed == old(target).is_closed,
        exists|same: Seq<bool>|
            spec_merge_run(
                *pos_equal,
                old(target).vertex_data@,
                vs@.subrange(start as int, vs@.len() as int),
                same,
            ) == Some(final(target).vertex_data@) && any_same == same.contains(true),
{
    let ghost acc0 = target.vertex_data@;
    let ghost mut same: Seq<bool> = Seq::empty();
    let mut any_same = false;
    let mut i: usize = start;
    assert(vs@.subrange(start as int, start as int) =~= Seq::<PlineVertex<T>>::empty());
    while i < vs.len()
        invariant
            spec_total(*pos_equal),
            start <= i <= vs@.len(),
            target.is_closed == old(target).is_closed,
            acc0 == old(target).vertex_data@,
            spec_merge_run(*pos_equal, acc0, vs@.subrange(start as int, i as int), same) == Some(
                target.vertex_data@,
            ),
            any_same == same.contains(true),
        decreases vs@.len() - i,
    {
        let v = vs[i];
        let ghost before = target.vertex_data@;
        let n = target.vertex_data.len();
        let mut b = false;
        if n > 0 {
            let last = target.vertex_data[n - 1];
            b = pos_equal(last.pos(), v.pos());
            if b {
                target.vertex_data.set(n - 1, last.with_bulge(v.bulge));
            } else {
                target.vertex_data.push(v);
            }
        } else {
            target.vertex_data.push(v);
        }
        proof {
            lemma_merge_run_push(
                *pos_equal,
                acc0,
                vs@.subrange(start as int, i as int),
                same,
                before,
                v,
                b,
            );
            assert(vs@.subrange(start as int, i as int).push(v) =~= vs@.subrange(
                start as int,
                i + 1,
            ));
            assert(target.vertex_data@ =~= spec_merge_step(before, v, b));
            if b {
                assert(same.push(b)[same.len() as int] == true);
            } else if any_same {
                let k = choose|k: int| 0 <= k < same.len() && same[k] == true;
                assert(same.push(b)[k] == true);
            } else {
                assert forall|k: int| 0 <= k < same.push(b).len() implies same.push(b)[k] != true by {
                    if k < same.len() {
                        assert(same[k] != true);
                    }
                }
            }
            same = same.push(b);
        }
        any_same = any_same || b;
        i = i + 1;
    }
    any_same
}

/// `r` tells whether `a` and `b` have the same length and `vertex_equal` found each pair of
/// vertexes at one index equal.
pub open spec fn spec_all_pairs_equal<T, F: Fn(PlineVertex<T>, PlineVertex<T>) -> bool>(
    vertex_equal: F,
    a: Seq<PlineVertex<T>>,
    b: Seq<PlineVertex<T>>,
    r: bool,
) -> bool {
    &&& r ==> a.len() == b.len() && forall|k: int|
        0 <= k < a.len() ==> #[trigger] vertex_equal.ensures((a[k], b[k]), true)
    &&& !r ==> a.len() != b.len() || exists|k: int|
        0 <= k < a.len() && #[trigger] vertex_equal.ensures((a[k], b[k]), false)
}

/// The answers `same` (one per vertex after the first) and `closing` (last vertex against the
/// first, for a closed polyline) are ones that `pos_equal` gives when repeated positions are
/// removed from `vs`.
pub open spec fn spec_repeat_answers_fit<T, F: Fn(Vector2<T>, Vector2<T>) -> bool>(
    pos_equal: F,
    vs: Seq<PlineVertex<T>>,
    closed: bool,
    same: Seq<bool>,
    closing: bool,
) -> bool {
    &&& spec_merge_run(pos_equal, seq![vs[0]], vs.subrange(1, vs.len() as int), same).is_some()
    &&& closed ==> pos_equal.ensures((vs.last().spec_pos(), vs[0].spec_pos()), closing)
}

/// Vertexes left once repeated positions are removed from `vs` with the answers `same` and
/// `closing`, or `None` when nothing is removed.
pub open spec fn spec_repeat_removed<T, F: Fn(Vector2<T>, Vector2<T>) -> bool>(
    pos_equal: F,
    vs: Seq<PlineVertex<T>>,
    closed: bool,
    same: Seq<bool>,
    closing: bool,
) -> Option<Seq<PlineVertex<T>>> {
    let merged = spec_merge_run(pos_equal, seq![vs[0]], vs.subrange(1, vs.len() as int), same).unwrap();
    let drop_last = closed && closing;
    if !same.contains(true) && !drop_last {
        None
    } else if drop_last {
        Some(merged.drop_last())
    } else {
        Some(merged)
    }
}

impl<T: Copy> Polyline<T> {
    /// Append `vertex`, unless `pos_equal` says that it lies on the last vertex: then only give
    /// the last vertex the bulge of `vertex`.
    pub fn add_or_replace_vertex<F: Fn(Vector2<T>, Vector2<T>) -> bool>(
        &mut self,
        vertex: PlineVertex<T>,
        pos_equal: &F,
    )
        requires
            spec_total(*pos_equal),
        ensures
            final(self).is_closed == old(self).is_closed,
            old(self).spec_len() == 0 ==> final(self).vertex_data@ == seq![vertex],
            old(self).spec_len() > 0 ==> exists|same: bool|
                #[trigger] pos_equal.ensures(
                    (old(self).vertex_data@.last().spec_pos(), vertex.spec_pos()),
                    same,
                ) && final(self).vertex_data@ == spec_merge_step(
                    old(self).vertex_data@,
                    vertex,
                    same,
                ),
    {
        let n = self.vertex_data.len();
        if n == 0 {
            self.vertex_data.push(vertex);
            assert(self.vertex_data@ =~= seq![vertex]);
            return;
        }
        let last = self.vertex_data[n - 1];
        let same = pos_equal(last.pos(), vertex.pos());
        if same {
            self.vertex_data.set(n - 1, last.with_bulge(vertex.bulge));
        } else {
            self.vertex_data.push(vertex);
        }
        assert(self.vertex_data@ =~= spec_merge_step(old(self).vertex_data@, vertex, same));
    }

    /// Compare with `other` vertex by vertex; `vertex_equal` decides when two vertexes are the
    /// same.
    pub fn fuzzy_eq_with<F: Fn(PlineVertex<T>, PlineVertex<T>) -> bool>(&self, other: &Polyline<T>, vertex_equal: &F) -> (r: bool)
        requires
            forall|a: PlineVertex<T>, b: PlineVertex<T>| #[trigger] vertex_equal.requires((a, b)),
        ensures
            spec_all_pairs_equal(*vertex_equal, self.vertex_data@, other.vertex_data@, r),
    {
        let n = self.vertex_data.len();
        if n != other.vertex_data.len() {
            return false;
        }
        let mut i: usize = 0;
        while i < n
            invariant
                n == self.vertex_data@.len(),
                n == other.vertex_data@.len(),
                i <= n,
                forall|a: PlineVertex<T>, b: PlineVertex<T>| #[trigger] vertex_equal.requires((a, b)),
                forall|k: int|
                    0 <= k < i ==> #[trigger] vertex_equal.ensures(
                        (self.vertex_data@[k], other.vertex_data@[k]),
                        true,
                    ),
            decreases n - i,
        {
            let e = vertex_equal(self.vertex_data[i], other.vertex_data[i]);
            if !e {
                assert(vertex_equal.ensures(
                    (self.vertex_data@[i as int], other.vertex_data@[i as int]),
                    false,
                ));
                return false;
            }
            i = i + 1;
        }
        true
    }

    /// Copy of the polyline without repeated positions, or `None` when there are none.
    ///
    /// Walking forward, a vertex that `pos_equal` finds on the last vertex kept is dropped, and
    /// the kept vertex takes its bulge, so that the segment leaving that position is the later
    /// one. A closed polyline whose last vertex lies on its first also loses its last kept
    /// vertex.
    pub fn remove_repeat_pos<F: Fn(Vector2<T>, Vector2<T>) -> bool>(&self, pos_equal: &F) -> (r: Option<Polyline<T>>)
        requires
            spec_total(*pos_equal),
        ensures
            self.spec_len() < 2 ==> r.is_none(),
            self.spec_len() >= 2 ==> exists|same: Seq<bool>, closing: bool|
                #[trigger] spec_repeat_answers_fit(
                    *pos_equal,
                    self.vertex_data@,
                    self.is_closed,
                    same,
                    closing,
                ) && r.is_some() == spec_repeat_removed(
                    *pos_equal,
                    self.vertex_data@,
                    self.is_closed,
                    same,
                    closing,
                ).is_some() && (r.is_some() ==> r.unwrap().is_closed == self.is_closed
                    && r.unwrap().vertex_data@ == spec_repeat_removed(
                    *pos_equal,
                    self.vertex_data@,
                    self.is_closed,
                    same,
                    closing,
                ).unwrap()),
    {
        let n = self.vertex_data.len();
        if n < 2 {
            return None;
        }
        let mut result: Polyline<T> = Polyline::with_capacity(n, self.is_closed);
        result.vertex_data.push(self.vertex_data[0]);
        assert(result.vertex_data@ =~= seq![self.vertex_data@[0]]);
        let changed = merge_onto(&mut result, &self.vertex_data, 1, pos_equal);
        let ghost same = choose|same: Seq<bool>|
            spec_merge_run(
                *pos_equal,
                seq![self.vertex_data@[0]],
                self.vertex_data@.subrange(1, n as int),
                same,
            ) == Some(result.vertex_data@) && changed == same.contains(true);
        let mut closing = false;
        let mut drop_last = false;
        if self.is_closed {
            closing = pos_equal(self.vertex_data[n - 1].pos(), self.vertex_data[0].pos());
            drop_last = closing;
        }
        if drop_last {
            let m = result.vertex_data.len();
            if m > 0 {
                result.vertex_data.pop();
            }
            assert(result.vertex_data@.len() == m - 1);
        }
        let r = if changed || drop_last {
            Some(result)
        } else {
            None
        };
        assert(spec_repeat_answers_fit(
            *pos_equal,
            self.vertex_data@,
            self.is_closed,
            same,
            closing,
        ));
        r
    }
}

} // verus!
