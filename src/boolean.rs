use vstd::prelude::*;

use crate::polyline::Polyline;
use crate::slice::BooleanPlineSlice;

verus! {

/// Boolean operation between the regions of two closed polylines.
#[derive(Debug, Clone, Copy, PartialEq, Eq, Hash, PartialOrd, Ord, Structural)]
pub enum BooleanOp {
    /// Union.
    Or,
    /// Intersection.
    And,
    /// The first region without the second.
    Not,
    /// Symmetric difference.
    Xor,
}

/// One polyline of a boolean result, with the slices stitched together to form it (none when
/// an input polyline was taken whole).
#[derive(Debug, Clone)]
pub struct BooleanResultPline<T> {
    pub pline: Polyline<T>,
    pub subslices: Vec<BooleanPlineSlice<T>>,
}

impl<T: Copy> BooleanResultPline<T> {
    pub fn new(pline: Polyline<T>, subslices: Vec<BooleanPlineSlice<T>>) -> (r: Self)
        ensures
            r.pline == pline,
            r.subslices@ == subslices@,
    {
        BooleanResultPline { pline, subslices }
    }
}

/// Result of a boolean operation: polylines bounding area that remains, and polylines bounding
/// holes cut out of it.
#[derive(Debug, Clone)]
pub struct BooleanResult<T> {
    pub pos_plines: Vec<BooleanResultPline<T>>,
    pub neg_plines: Vec<BooleanResultPline<T>>,
}

/// `rs` holds the polylines `ps`, in order, each taken whole.
pub open spec fn spec_whole_plines<T>(rs: Seq<BooleanResultPline<T>>, ps: Seq<Polyline<T>>) -> bool {
    &&& rs.len() == ps.len()
    &&& forall|k: int|
        0 <= k < rs.len() ==> (#[trigger] rs[k]).pline == ps[k] && rs[k].subslices@.len() == 0
}

/// Wrap each polyline, in order, as a result polyline made of no slices.
fn whole_plines<T: Copy>(plines: Vec<Polyline<T>>) -> (r: Vec<BooleanResultPline<T>>)
    ensures
        spec_whole_plines(r@, plines@),
{
    let ghost orig = plines@;
    let n = plines.len();
    let mut rest = plines;
    let mut reversed: Vec<Polyline<T>> = Vec::with_capacity(n);
    while rest.len() > 0
        invariant
            rest@.len() + reversed@.len() == n,
            n == orig.len(),
            rest@ == orig.subrange(0, rest@.len() as int),
            forall|k: int| 0 <= k < reversed@.len() ==> #[trigger] reversed@[k] == orig[n - 1 - k],
        decreases rest@.len(),
    {
        let p = rest.pop().unwrap();
        reversed.push(p);
    }
    let mut result: Vec<BooleanResultPline<T>> = Vec::with_capacity(n);
    while reversed.len() > 0
        invariant
            reversed@.len() + result@.len() == n,
            n == orig.len(),
            forall|k: int| 0 <= k < reversed@.len() ==> #[trigger] reversed@[k] == orig[n - 1 - k],
            spec_whole_plines(result@, orig.subrange(0, result@.len() as int)),
        decreases reversed@.len(),
    {
        let p = reversed.pop().unwrap();
        result.push(BooleanResultPline::new(p, Vec::new()));
    }
    assert(orig.subrange(0, n as int) =~= orig);
    result
}

impl<T: Copy> BooleanResult<T> {
    pub fn new(pos_plines: Vec<BooleanResultPline<T>>, neg_plines: Vec<BooleanResultPline<T>>) -> (r: Self)
        ensures
            r.pos_plines@ == pos_plines@,
            r.neg_plines@ == neg_plines@,
    {
        BooleanResult { pos_plines, neg_plines }
    }

    /// No polylines at all.
    pub fn empty() -> (r: Self)
        ensures
            r.pos_plines@.len() == 0,
            r.neg_plines@.len() == 0,
    {
        Self::new(Vec::new(), Vec::new())
    }

    /// Result made of whole polylines, none of them cut into slices.
    pub fn from_whole_plines(pos_plines: Vec<Polyline<T>>, neg_plines: Vec<Polyline<T>>) -> (r: Self)
        ensures
            spec_whole_plines(r.pos_plines@, pos_plines@),
            spec_whole_plines(r.neg_plines@, neg_plines@),
    {
        BooleanResult { pos_plines: whole_plines(pos_plines), neg_plines: whole_plines(neg_plines) }
    }
}

/// Positive and negative polylines of `op` between two closed polylines whose curves do not
/// meet, from where each lies relative to the other.
///
/// For polylines that do not cross, either one lies inside the other or they are apart: the
/// union is the outer one (or both), the intersection the inner one (or nothing), the
/// difference is nothing, the first with the second as a hole, or the first alone, and the
/// symmetric difference is the outer one with the inner one as a hole (or both).
pub open spec fn spec_disjoint_boolean<T>(
    pline1: Polyline<T>,
    pline2: Polyline<T>,
    pline1_in_pline2: bool,
    pline2_in_pline1: bool,
    op: BooleanOp,
) -> (Seq<Polyline<T>>, Seq<Polyline<T>>) {
    match op {
        BooleanOp::Or => if pline1_in_pline2 {
            (seq![pline2], seq![])
        } else if pline2_in_pline1 {
            (seq![pline1], seq![])
        } else {
            (seq![pline1, pline2], seq![])
        },
        BooleanOp::And => if pline1_in_pline2 {
            (seq![pline1], seq![])
        } else if pline2_in_pline1 {
            (seq![pline2], seq![])
        } else {
            (seq![], seq![])
        },
        BooleanOp::Not => if pline1_in_pline2 {
            (seq![], seq![])
        } else if pline2_in_pline1 {
            (seq![pline1], seq![pline2])
        } else {
            (seq![pline1], seq![])
        },
        BooleanOp::Xor => if pline1_in_pline2 {
            (seq![pline2], seq![pline1])
        } else if pline2_in_pline1 {
            (seq![pline1], seq![pline2])
        } else {
            (seq![pline1, pline2], seq![])
        },
    }
}

/// Boolean `op` between two closed polylines whose curves neither cross nor overlap.
/// `pline1_in_pline2` tells whether a point of `pline1` lies inside `pline2` (non-zero winding
/// number), `pline2_in_pline1` the converse.
pub fn boolean_of_disjoint<T: Copy>(
    pline1: Polyline<T>,
    pline2: Polyline<T>,
    pline1_in_pline2: bool,
    pline2_in_pline1: bool,
    op: BooleanOp,
) -> (r: BooleanResult<T>)
    ensures
        ({
            let (pos, neg) = spec_disjoint_boolean(
                pline1,
                pline2,
                pline1_in_pline2,
                pline2_in_pline1,
                op,
            );
            spec_whole_plines(r.pos_plines@, pos) && spec_whole_plines(r.neg_plines@, neg)
        }),
{
    let mut pos: Vec<Polyline<T>> = Vec::new();
    let mut neg: Vec<Polyline<T>> = Vec::new();
    match op {
        BooleanOp::Or => {
            if pline1_in_pline2 {
                pos.push(pline2);
            } else if pline2_in_pline1 {
                pos.push(pline1);
            } else {
                pos.push(pline1);
                pos.push(pline2);
            }
        },
        BooleanOp::And => {
            if pline1_in_pline2 {
                pos.push(pline1);
            } else if pline2_in_pline1 {
                pos.push(pline2);
            }
        },
        BooleanOp::Not => {
            if pline1_in_pline2 {
            } else if pline2_in_pline1 {
                pos.push(pline1);
                neg.push(pline2);
            } else {
                pos.push(pline1);
            }
        },
        BooleanOp::Xor => {
            if pline1_in_pline2 {
                pos.push(pline2);
                neg.push(pline1);
            } else if pline2_in_pline1 {
                pos.push(pline1);
                neg.push(pline2);
            } else {
                pos.push(pline1);
                pos.push(pline2);
            }
        },
    }
    let ghost expected = spec_disjoint_boolean(
        pline1,
        pline2,
        pline1_in_pline2,
        pline2_in_pline1,
        op,
    );
    assert(pos@ =~= expected.0);
    assert(neg@ =~= expected.1);
    BooleanResult::from_whole_plines(pos, neg)
}

/// Whether a slice that lies on one input polyline, inside or outside the other, belongs to the
/// result of `op`, and if so whether it is walked backwards: `None` drops it, `Some(inverted)`
/// keeps it.
pub open spec fn spec_slice_selection(op: BooleanOp, source_is_pline1: bool, inside_other: bool) -> Option<bool> {
    match op {
        BooleanOp::Or => if inside_other {
            None
        } else {
            Some(false)
        },
        BooleanOp::And => if inside_other {
            Some(false)
        } else {
            None
        },
        BooleanOp::Not => if source_is_pline1 {
            if inside_other {
                None
            } else {
                Some(false)
            }
        } else {
            if inside_other {
                Some(true)
            } else {
                None
            }
        },
        BooleanOp::Xor => Some(inside_other),
    }
}

/// Selection of a slice that is not shared by the two inputs: the union keeps what lies outside
/// the other polyline, the intersection what lies inside, the difference keeps the first
/// polyline outside the second and the second inside the first, walked backwards, and the
/// symmetric difference keeps all, walking backwards what lies inside.
pub fn slice_selection(op: BooleanOp, source_is_pline1: bool, inside_other: bool) -> (r: Option<bool>)
    ensures
        r == spec_slice_selection(op, source_is_pline1, inside_other),
{
    match op {
        BooleanOp::Or => if inside_other {
            None
        } else {
            Some(false)
        },
        BooleanOp::And => if inside_other {
            Some(false)
        } else {
            None
        },
        BooleanOp::Not => {
            if source_is_pline1 {
                if inside_other {
                    None
                } else {
                    Some(false)
                }
            } else if inside_other {
                Some(true)
            } else {
                None
            }
        },
        BooleanOp::Xor => Some(inside_other),
    }
}

/// Whether a slice shared by both inputs belongs to the result of `op`: union and intersection
/// keep it where the two polylines run the same way, the difference where they run opposite
/// ways, and the symmetric difference never.
pub fn keep_overlapping_slice(op: BooleanOp, same_direction: bool) -> (r: bool)
    ensures
        r == match op {
            BooleanOp::Or | BooleanOp::And => same_direction,
            BooleanOp::Not => !same_direction,
            BooleanOp::Xor => false,
        },
{
    match op {
        BooleanOp::Or | BooleanOp::And => same_direction,
        BooleanOp::Not => !same_direction,
        BooleanOp::Xor => false,
    }
}

} // verus!
