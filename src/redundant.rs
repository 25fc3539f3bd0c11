use vstd::prelude::*;

use crate::polyline::Polyline;
use crate::repeats::spec_total;
use crate::vertex::{PlineVertex, Vector2};

verus! {

/// What to do with the middle vertex `v2` of three consecutive vertexes `v1, v2, v3`.
#[derive(Debug, Clone, Copy)]
pub enum RedundantCase<T> {
    /// `v2` stays.
    Keep,
    /// `v2` lies on `v3`: it goes, and the segment from `v1` now ends at `v3`.
    Repeat,
    /// Two line segments run on in one direction through `v2`: it goes.
    Collinear,
    /// Two arcs of one circle meet at `v2`: it goes, and `v1` takes the given bulge of the
    /// single arc from `v1` to `v3`.
    MergeArcs(T),
}

/// `classify` accepts any three vertexes.
pub open spec fn spec_classify_total<T, C: Fn(PlineVertex<T>, PlineVertex<T>, PlineVertex<T>) -> RedundantCase<T>>(classify: C) -> bool {
    forall|a: PlineVertex<T>, b: PlineVertex<T>, c: PlineVertex<T>| #[trigger] classify.requires((a, b, c))
}

/// Vertexes kept so far after deciding on `v2` with `case`; the last of `out` is `v1`.
pub open spec fn spec_redundant_step<T>(out: Seq<PlineVertex<T>>, v2: PlineVertex<T>, case: RedundantCase<T>) -> Seq<PlineVertex<T>> {
    match case {
        RedundantCase::Keep => out.push(v2),
        RedundantCase::Repeat => out,
        RedundantCase::Collinear => out,
        RedundantCase::MergeArcs(b) => out.update(out.len() - 1, out.last().spec_with_bulge(b)),
    }
}

/// The forward pass: starting from the kept vertexes `out0` and the candidate `v2_0`, each
/// vertex of `v3s` in turn decides, with the answer of `classify` recorded in `cases`, on the
/// candidate before it. The result is the kept vertexes and the last candidate, or `None` when
/// the answers do not fit `classify`.
pub open spec fn spec_redundant_run<T, C: Fn(PlineVertex<T>, PlineVertex<T>, PlineVertex<T>) -> RedundantCase<T>>(
    classify: C,
    out0: Seq<PlineVertex<T>>,
    v2_0: PlineVertex<T>,
    v3s: Seq<PlineVertex<T>>,
    cases: Seq<RedundantCase<T>>,
) -> Option<(Seq<PlineVertex<T>>, PlineVertex<T>)>
    decreases v3s.len(),
{
    if cases.len() != v3s.len() {
        None
    } else if v3s.len() == 0 {
        Some((out0, v2_0))
    } else {
        match spec_redundant_run(classify, out0, v2_0, v3s.drop_last(), cases.drop_last()) {
            None => None,
            Some((out, v2)) => if classify.ensures((out.last(), v2, v3s.last()), cases.last()) {
                Some((spec_redundant_step(out, v2, cases.last()), v3s.last()))
            } else {
                None
            },
        }
    }
}

/// The first vertex after the `lead` vertexes that follow it on the same position were
/// merged into it: its position, with the bulge of the last of them.
pub open spec fn spec_lead_vertex<T>(vs: Seq<PlineVertex<T>>, lead: nat) -> PlineVertex<T> {
    vs[0].spec_with_bulge(vs[lead as int].bulge)
}

/// The forward pass over `vs` after the leading repeats.
pub open spec fn spec_redundant_forward<T, C: Fn(PlineVertex<T>, PlineVertex<T>, PlineVertex<T>) -> RedundantCase<T>>(
    classify: C,
    vs: Seq<PlineVertex<T>>,
    lead: nat,
    cases: Seq<RedundantCase<T>>,
) -> Option<(Seq<PlineVertex<T>>, PlineVertex<T>)> {
    spec_redundant_run(
        classify,
        seq![spec_lead_vertex(vs, lead)],
        vs[lead + 1int],
        vs.subrange(lead + 2int, vs.len() as int),
        cases,
    )
}

/// A closed polyline's first vertex reconsidered between its last and its second: when it
/// goes, the last vertex takes its place at the front.
pub open spec fn spec_wrap_step<T>(out: Seq<PlineVertex<T>>, case: RedundantCase<T>) -> Seq<PlineVertex<T>> {
    let rest = out.subrange(1, out.len() - 1);
    match case {
        RedundantCase::Keep => out,
        RedundantCase::Repeat => seq![out.last()] + rest,
        RedundantCase::Collinear => seq![out.last()] + rest,
        RedundantCase::MergeArcs(b) => seq![out.last().spec_with_bulge(b)] + rest,
    }
}

/// The vertexes left of `vs` for the answers given: `lead` vertexes that `pos_equal` put on
/// the first, `cases` of the forward pass, `closing` for the last candidate of a closed
/// polyline against its first vertex, and `wrap` for the first vertex reconsidered.
pub open spec fn spec_redundant_final<T, C: Fn(PlineVertex<T>, PlineVertex<T>, PlineVertex<T>) -> RedundantCase<T>>(
    classify: C,
    vs: Seq<PlineVertex<T>>,
    closed: bool,
    lead: nat,
    cases: Seq<RedundantCase<T>>,
    closing: RedundantCase<T>,
    wrap: RedundantCase<T>,
) -> Seq<PlineVertex<T>> {
    if lead + 1 == vs.len() {
        seq![spec_lead_vertex(vs, lead)]
    } else {
        let (out, v2) = spec_redundant_forward(classify, vs, lead, cases).unwrap();
        if closed {
            let out2 = spec_redundant_step(out, v2, closing);
            if out2.len() >= 3 {
                spec_wrap_step(out2, wrap)
            } else {
                out2
            }
        } else {
            out.push(v2)
        }
    }
}

/// The answers are ones that `pos_equal` and `classify` give to the questions that removing
/// redundant vertexes from `vs` asks.
pub open spec fn spec_redundant_answers_fit<
    T,
    F: Fn(Vector2<T>, Vector2<T>) -> bool,
    C: Fn(PlineVertex<T>, PlineVertex<T>, PlineVertex<T>) -> RedundantCase<T>,
>(
    pos_equal: F,
    classify: C,
    vs: Seq<PlineVertex<T>>,
    closed: bool,
    lead: nat,
    cases: Seq<RedundantCase<T>>,
    closing: RedundantCase<T>,
    wrap: RedundantCase<T>,
) -> bool {
    let n = vs.len();
    let j = lead + 1;
    &&& j <= n
    &&& forall|k: int| 1 <= k < j ==> #[trigger] pos_equal.ensures((vs[0].spec_pos(), vs[k].spec_pos()), true)
    &&& j < n ==> pos_equal.ensures((vs[0].spec_pos(), vs[j as int].spec_pos()), false)
    &&& n >= 3 && j < n ==> {
        let fwd = spec_redundant_forward(classify, vs, lead, cases);
        let out = fwd.unwrap().0;
        let v2 = fwd.unwrap().1;
        let out2 = spec_redundant_step(out, v2, closing);
        &&& fwd.is_some()
        &&& closed ==> classify.ensures((out.last(), v2, out[0]), closing)
        &&& closed && out2.len() >= 3 ==> classify.ensures((out2.last(), out2[0], out2[1]), wrap)
    }
}

/// Result of removing redundant vertexes from `vs` for the answers given: a polyline of two
/// vertexes only loses its second when both lie on one position; otherwise the vertexes left
/// are returned when there are fewer of them, and `None` when nothing was removed.
pub open spec fn spec_redundant_removed<T, C: Fn(PlineVertex<T>, PlineVertex<T>, PlineVertex<T>) -> RedundantCase<T>>(
    classify: C,
    vs: Seq<PlineVertex<T>>,
    closed: bool,
    lead: nat,
    cases: Seq<RedundantCase<T>>,
    closing: RedundantCase<T>,
    wrap: RedundantCase<T>,
) -> Option<Seq<PlineVertex<T>>> {
    if vs.len() == 2 {
        if lead == 1 {
            Some(seq![vs[0]])
        } else {
            None
        }
    } else {
        let fin = spec_redundant_final(classify, vs, closed, lead, cases, closing, wrap);
        if fin.len() < vs.len() {
            Some(fin)
        } else {
            None
        }
    }
}

proof fn lemma_redundant_run_push<T, C: Fn(PlineVertex<T>, PlineVertex<T>, PlineVertex<T>) -> RedundantCase<T>>(
    classify: C,
    out0: Seq<PlineVertex<T>>,
    v2_0: PlineVertex<T>,
    v3s: Seq<PlineVertex<T>>,
    cases: Seq<RedundantCase<T>>,
    out: Seq<PlineVertex<T>>,
    v2: PlineVertex<T>,
    v3: PlineVertex<T>,
    c: RedundantCase<T>,
)
    requires
        spec_redundant_run(classify, out0, v2_0, v3s, cases) == Some((out, v2)),
        classify.ensures((out.last(), v2, v3), c),
    ensures
        spec_redundant_run(classify, out0, v2_0, v3s.push(v3), cases.push(c)) == Some(
            (spec_redundant_step(out, v2, c), v3),
        ),
{
    assert(v3s.push(v3).drop_last() =~= v3s);
    assert(cases.push(c).drop_last() =~= cases);
}

/// Apply `case` to the kept vertexes `out`, whose last is `v1`, and the candidate `v2`.
fn apply_step<T: Copy>(out: &mut Vec<PlineVertex<T>>, v2: PlineVertex<T>, case: RedundantCase<T>)
    requires
        old(out)@.len() > 0,
    ensures
        final(out)@ == spec_redundant_step(old(out)@, v2, case),
        final(out)@.len() > 0,
{
    match case {
        RedundantCase::Keep => {
            out.push(v2);
        },
        RedundantCase::Repeat => {},
        RedundantCase::Collinear => {},
        RedundantCase::MergeArcs(b) => {
            let m = out.len();
            let last = out[m - 1];
            out.set(m - 1, last.with_bulge(b));
        },
    }
}

impl<T: Copy> Polyline<T> {
    /// Copy of the polyline without redundant vertexes, or `None` when there are none.
    ///
    /// Vertexes that `pos_equal` puts on the first one are merged into it first. Then a single
    /// forward pass asks `classify` about each run of three vertexes `v1, v2, v3` (`v1` the last
    /// vertex kept) whether `v2` goes: because it lies on `v3`, because two line segments run
    /// on in one direction through it, or because two arcs of one circle meet at it, `v1` then
    /// taking the bulge of the merged arc. The last vertex of an open polyline always stays. A
    /// closed polyline also decides on its last vertex against its first, and then reconsiders
    /// its first vertex between its last and its second.
    pub fn remove_redundant<F, C>(&self, pos_equal: &F, classify: &C) -> (r: Option<Polyline<T>>)
        where
            F: Fn(Vector2<T>, Vector2<T>) -> bool,
            C: Fn(PlineVertex<T>, PlineVertex<T>, PlineVertex<T>) -> RedundantCase<T>,
        requires
            spec_total(*pos_equal),
            spec_classify_total(*classify),
        ensures
            self.spec_len() < 2 ==> r.is_none(),
            self.spec_len() >= 2 ==> exists|
                lead: nat,
                cases: Seq<RedundantCase<T>>,
                closing: RedundantCase<T>,
                wrap: RedundantCase<T>,
            |
                #[trigger] spec_redundant_answers_fit(
                    *pos_equal,
                    *classify,
                    self.vertex_data@,
                    self.is_closed,
                    lead,
                    cases,
                    closing,
                    wrap,
                ) && r.is_some() == spec_redundant_removed(
                    *classify,
                    self.vertex_data@,
                    self.is_closed,
                    lead,
                    cases,
                    closing,
                    wrap,
                ).is_some() && (r.is_some() ==> r.unwrap().vertex_data@ == spec_redundant_removed(
                    *classify,
                    self.vertex_data@,
                    self.is_closed,
                    lead,
                    cases,
                    closing,
                    wrap,
                ).unwrap()),
            r.is_some() ==> r.unwrap().is_closed == self.is_closed && r.unwrap().spec_len()
                < self.spec_len(),
    {
        let n = self.vertex_data.len();
        if n < 2 {
            return None;
        }
        let ghost vs = self.vertex_data@;
        let v0 = self.vertex_data[0];
        let mut v1 = v0;
        let mut j: usize = 1;
        let mut stopped = false;
        while j < n && !stopped
            invariant
                n == vs.len(),
                vs == self.vertex_data@,
                n >= 2,
                1 <= j <= n,
                spec_total(*pos_equal),
                v0 == vs[0],
                v1 == vs[0].spec_with_bulge(vs[j - 1].bulge),
                forall|k: int| 1 <= k < j ==> #[trigger] pos_equal.ensures((vs[0].spec_pos(), vs[k].spec_pos()), true),
                stopped ==> j < n && pos_equal.ensures((vs[0].spec_pos(), vs[j as int].spec_pos()), false),
            decreases n - j, if stopped { 0int } else { 1int },
        {
            let same = pos_equal(v1.pos(), self.vertex_data[j].pos());
            if same {
                v1 = v0.with_bulge(self.vertex_data[j].bulge);
                j = j + 1;
            } else {
                stopped = true;
            }
        }
        let ghost lead: nat = (j - 1) as nat;
        let ghost mut cases: Seq<RedundantCase<T>> = Seq::empty();
        let mut closing: RedundantCase<T> = RedundantCase::Keep;
        let mut wrap: RedundantCase<T> = RedundantCase::Keep;
        if n == 2 {
            let r = if j == 2 {
                let mut p = Polyline::with_capacity(1, self.is_closed);
                p.vertex_data.push(v0);
                assert(p.vertex_data@ =~= seq![vs[0]]);
                Some(p)
            } else {
                None
            };
            assert(spec_redundant_answers_fit(*pos_equal, *classify, vs, self.is_closed, lead, cases, closing, wrap));
            return r;
        }
        if j == n {
            let mut p = Polyline::with_capacity(1, self.is_closed);
            p.vertex_data.push(v1);
            assert(p.vertex_data@ =~= seq![spec_lead_vertex(vs, lead)]);
            assert(spec_redundant_answers_fit(*pos_equal, *classify, vs, self.is_closed, lead, cases, closing, wrap));
            return Some(p);
        }
        let mut out: Vec<PlineVertex<T>> = Vec::with_capacity(n);
        out.push(v1);
        let mut v2 = self.vertex_data[j];
        let mut k: usize = j + 1;
        assert(vs.subrange(j + 1, j + 1) =~= Seq::<PlineVertex<T>>::empty());
        assert(out@ =~= seq![spec_lead_vertex(vs, lead)]);
        while k < n
            invariant
                n == vs.len(),
                vs == self.vertex_data@,
                n >= 3,
                1 <= j < n,
                lead == j - 1,
                j + 1 <= k <= n,
                spec_classify_total(*classify),
                out@.len() > 0,
                spec_redundant_run(
                    *classify,
                    seq![spec_lead_vertex(vs, lead)],
                    vs[lead + 1int],
                    vs.subrange(j + 1, k as int),
                    cases,
                ) == Some((out@, v2)),
            decreases n - k,
        {
            let v3 = self.vertex_data[k];
            let c = classify(out[out.len() - 1], v2, v3);
            proof {
                lemma_redundant_run_push(
                    *classify,
                    seq![spec_lead_vertex(vs, lead)],
                    vs[lead + 1int],
                    vs.subrange(j + 1, k as int),
                    cases,
                    out@,
                    v2,
                    v3,
                    c,
                );
                assert(vs.subrange(j + 1, k as int).push(v3) =~= vs.subrange(j + 1, k + 1));
                cases = cases.push(c);
            }
            apply_step(&mut out, v2, c);
            v2 = v3;
            k = k + 1;
        }
        assert(vs.subrange(lead + 2int, n as int) =~= vs.subrange(j + 1, n as int));
        let ghost out_fwd = out@;
        let ghost v2_fwd = v2;
        if self.is_closed {
            closing = classify(out[out.len() - 1], v2, out[0]);
            apply_step(&mut out, v2, closing);
            let m = out.len();
            if m >= 3 {
                wrap = classify(out[m - 1], out[0], out[1]);
                let ghost out2 = out@;
                match wrap {
                    RedundantCase::Keep => {},
                    RedundantCase::Repeat => {
                        let last = out.pop().unwrap();
                        out.set(0, last);
                    },
                    RedundantCase::Collinear => {
                        let last = out.pop().unwrap();
                        out.set(0, last);
                    },
                    RedundantCase::MergeArcs(b) => {
                        let last = out.pop().unwrap();
                        out.set(0, last.with_bulge(b));
                    },
                }
                assert(out@ =~= spec_wrap_step(out2, wrap));
            }
        } else {
            out.push(v2);
        }
        assert(spec_redundant_answers_fit(*pos_equal, *classify, vs, self.is_closed, lead, cases, closing, wrap));
        if out.len() < n {
            Some(Polyline::from_vertexes(out, self.is_closed))
        } else {
            None
        }
    }
}

} // verus!
