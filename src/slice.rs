use vstd::prelude::*;

use crate::polyline::{
    spec_fwd_wrapping_dist, spec_next_wrapping_index, spec_prev_wrapping_index,
    spec_scalar_total, Polyline,
};
use crate::vertex::{PlineVertex, Vector2};
use crate::repeats::{spec_merge_run, spec_total};
use crate::split::{spec_split_total, SplitResult};
use crate::view::{spec_validation_answers_fit, spec_validation_result, spec_view_fits, spec_view_vertex, spec_view_vertexes, PlineView, PlineViewData};

verus! {

/// Outcome of checking a slice against its source polyline.
#[derive(Debug, Copy, Clone, PartialEq)]
pub enum SliceValidation<T> {
    OffsetOutOfRange { offset: usize, source_length: usize },
    UpdatedStartNotOnSegment { start_point: Vector2<T> },
    EndPointNotOnSegment { end_point: Vector2<T> },
    EndPointOnFinalOffsetVertex { end_point: Vector2<T>, final_offset_vertex: PlineVertex<T> },
    UpdatedBulgeDoesNotMatch { updated_bulge: T, expected: T },
    IsValid,
}

/// `r` is the slice on the single segment `start_index` from `updated_start` to `end_intersect`
/// for the answer of `pos_equal`: none when the two positions are the same.
pub open spec fn spec_single_segment_slice<T, F: Fn(Vector2<T>, Vector2<T>) -> bool>(
    pos_equal: F,
    start_index: usize,
    updated_start: PlineVertex<T>,
    end_intersect: Vector2<T>,
    r: Option<OpenPlineSlice<T>>,
) -> bool {
    exists|same: bool|
        #[trigger] pos_equal.ensures((updated_start.spec_pos(), end_intersect), same) && (same
            ==> r.is_none()) && (!same ==> r == Some(
            OpenPlineSlice {
                start_index,
                end_index_offset: 0,
                updated_start,
                updated_end_bulge: updated_start.bulge,
                end_point: end_intersect,
                inverted: false,
            },
        ))
}

/// `r` is the slice from `updated_start` on segment `start_index` over `traverse_count`
/// segments to `end_intersect` on segment `intersect_index` of `vs`, for the answers of
/// `pos_equal` and `split`. When `end_intersect` lies on the start vertex of its segment the
/// slice stops one segment earlier and ends with the full bulge of the segment before;
/// otherwise the last segment is cut at `end_intersect`.
pub open spec fn spec_create_slice<T, F: Fn(Vector2<T>, Vector2<T>) -> bool, S: Fn(PlineVertex<T>, PlineVertex<T>, Vector2<T>) -> SplitResult<T>>(
    pos_equal: F,
    split: S,
    vs: Seq<PlineVertex<T>>,
    start_index: usize,
    end_intersect: Vector2<T>,
    intersect_index: usize,
    updated_start: PlineVertex<T>,
    traverse_count: usize,
    r: OpenPlineSlice<T>,
) -> bool {
    let n = vs.len() as int;
    let current = vs[intersect_index as int];
    exists|on_vertex: bool|
        #[trigger] pos_equal.ensures((end_intersect, current.spec_pos()), on_vertex) && (on_vertex
            ==> r == OpenPlineSlice {
            start_index,
            end_index_offset: (traverse_count - 1) as usize,
            updated_start,
            updated_end_bulge: if traverse_count - 1 != 0 {
                vs[spec_prev_wrapping_index(n, intersect_index as int)].bulge
            } else {
                updated_start.bulge
            },
            end_point: end_intersect,
            inverted: false,
        }) && (!on_vertex ==> exists|sp: SplitResult<T>|
            #[trigger] split.ensures(
                (current, vs[spec_next_wrapping_index(n, intersect_index as int)], end_intersect),
                sp,
            ) && r == OpenPlineSlice {
                start_index,
                end_index_offset: traverse_count,
                updated_start,
                updated_end_bulge: sp.updated_start.bulge,
                end_point: end_intersect,
                inverted: false,
            })
}

/// `us` is the first vertex of a slice that starts at `start_point` on the segment from `v1` to
/// `v2` (at `v1` itself when `at_seg_start`), for the answers of `split`; when the slice also
/// ends on that segment (`traverse_count == 0`) its bulge is cut at `end_point` too.
pub open spec fn spec_slice_start_vertex<T, S: Fn(PlineVertex<T>, PlineVertex<T>, Vector2<T>) -> SplitResult<T>>(
    split: S,
    v1: PlineVertex<T>,
    v2: PlineVertex<T>,
    at_seg_start: bool,
    traverse_count: int,
    start_point: Vector2<T>,
    end_point: Vector2<T>,
    us: PlineVertex<T>,
) -> bool {
    if at_seg_start {
        if traverse_count == 0 {
            exists|sp: SplitResult<T>| #[trigger] split.ensures((v1, v2, end_point), sp) && us == sp.updated_start
        } else {
            us == v1
        }
    } else {
        exists|sp1: SplitResult<T>|
            #[trigger] split.ensures((v1, v2, start_point), sp1) && if traverse_count == 0 {
                exists|sp2: SplitResult<T>|
                    #[trigger] split.ensures((sp1.split_vertex, v2, end_point), sp2) && us
                        == sp2.updated_start
            } else {
                us == sp1.split_vertex
            }
    }
}

/// `r` is the slice of `vs` from `start_point` on segment `start_index` to `end_point` on
/// segment `end_index`, for the answers of `pos_equal` and `split`. A start point on the end
/// of its segment moves the start to the next segment (when the polyline can be walked
/// forward from there); a slice within one segment is built by
/// `spec_single_segment_slice`, a longer one by `spec_create_slice`.
pub open spec fn spec_slice_from_points<T, F: Fn(Vector2<T>, Vector2<T>) -> bool, S: Fn(PlineVertex<T>, PlineVertex<T>, Vector2<T>) -> SplitResult<T>>(
    pos_equal: F,
    split: S,
    vs: Seq<PlineVertex<T>>,
    closed: bool,
    start_point: Vector2<T>,
    start_index: usize,
    end_point: Vector2<T>,
    end_index: usize,
    r: Option<OpenPlineSlice<T>>,
) -> bool {
    ||| spec_slice_from_points_answer(
        pos_equal,
        split,
        vs,
        closed,
        start_point,
        start_index,
        end_point,
        end_index,
        r,
        true,
    )
    ||| spec_slice_from_points_answer(
        pos_equal,
        split,
        vs,
        closed,
        start_point,
        start_index,
        end_point,
        end_index,
        r,
        false,
    )
}

/// `spec_slice_from_points` where `at_seg_end` is the answer of `pos_equal` on whether the
/// start point lies on the end of its segment.
pub open spec fn spec_slice_from_points_answer<T, F: Fn(Vector2<T>, Vector2<T>) -> bool, S: Fn(PlineVertex<T>, PlineVertex<T>, Vector2<T>) -> SplitResult<T>>(
    pos_equal: F,
    split: S,
    vs: Seq<PlineVertex<T>>,
    closed: bool,
    start_point: Vector2<T>,
    start_index: usize,
    end_point: Vector2<T>,
    end_index: usize,
    r: Option<OpenPlineSlice<T>>,
    at_seg_end: bool,
) -> bool {
    let n = vs.len() as int;
    let may_move = closed || start_index < end_index;
    let next = spec_next_wrapping_index(n, start_index as int);
    &&& may_move ==> pos_equal.ensures((vs[next].spec_pos(), start_point), at_seg_end)
    &&& spec_slice_from_start(
        pos_equal,
        split,
        vs,
        if may_move && at_seg_end {
            next
        } else {
            start_index as int
        },
        may_move && at_seg_end,
        start_point,
        end_point,
        end_index,
        r,
    )
}

/// `r` is the slice of `vs` that starts on segment `si`, at its start vertex when
/// `at_seg_start` or else at `start_point`, and ends at `end_point` on segment `end_index`.
pub open spec fn spec_slice_from_start<T, F: Fn(Vector2<T>, Vector2<T>) -> bool, S: Fn(PlineVertex<T>, PlineVertex<T>, Vector2<T>) -> SplitResult<T>>(
    pos_equal: F,
    split: S,
    vs: Seq<PlineVertex<T>>,
    si: int,
    at_seg_start: bool,
    start_point: Vector2<T>,
    end_point: Vector2<T>,
    end_index: usize,
    r: Option<OpenPlineSlice<T>>,
) -> bool {
    let n = vs.len() as int;
    let tc = spec_fwd_wrapping_dist(vs.len(), si, end_index as int);
    exists|us: PlineVertex<T>|
        #[trigger] spec_slice_start_vertex(
            split,
            vs[si],
            vs[spec_next_wrapping_index(n, si)],
            at_seg_start,
            tc,
            start_point,
            end_point,
            us,
        ) && (tc == 0 ==> spec_single_segment_slice(pos_equal, si as usize, us, end_point, r)) && (
        tc != 0 ==> r.is_some() && spec_create_slice(
            pos_equal,
            split,
            vs,
            si as usize,
            end_point,
            end_index,
            us,
            tc as usize,
            r.unwrap(),
        ))
}

/// An open slice of a source polyline; the source is passed in whenever vertexes are needed.
/// See [PlineViewData] for the meaning of the fields.
#[derive(Debug, Copy, Clone)]
pub struct OpenPlineSlice<T> {
    pub start_index: usize,
    pub end_index_offset: usize,
    pub updated_start: PlineVertex<T>,
    pub updated_end_bulge: T,
    pub end_point: Vector2<T>,
    pub inverted: bool,
}

impl<T: Copy> OpenPlineSlice<T> {
    pub open spec fn spec_view_data(&self) -> PlineViewData<T> {
        PlineViewData {
            start_index: self.start_index,
            end_index_offset: self.end_index_offset,
            updated_start: self.updated_start,
            updated_end_bulge: self.updated_end_bulge,
            end_point: self.end_point,
            inverted_direction: self.inverted,
        }
    }

    /// Slice that starts and ends on the segment `start_index`, from `updated_start` to
    /// `end_intersect`, or `None` when `pos_equal` says the two positions are the same (the slice
    /// would collapse to a point).
    pub fn create_on_single_segment<F: Fn(Vector2<T>, Vector2<T>) -> bool>(
        source: &Polyline<T>,
        start_index: usize,
        updated_start: PlineVertex<T>,
        end_intersect: Vector2<T>,
        pos_equal: &F,
    ) -> (r: Option<Self>)
        requires
            spec_total(*pos_equal),
        ensures
            spec_single_segment_slice(*pos_equal, start_index, updated_start, end_intersect, r),
    {
        let same = pos_equal(updated_start.pos(), end_intersect);
        assert(pos_equal.ensures((updated_start.spec_pos(), end_intersect), same));
        if same {
            return None;
        }
        Some(
            OpenPlineSlice {
                start_index,
                end_index_offset: 0,
                updated_start,
                updated_end_bulge: updated_start.bulge,
                end_point: end_intersect,
                inverted: false,
            },
        )
    }

    /// Slice over `traverse_count` (at least one) segments from `start_index`, starting at
    /// `updated_start` and ending at `end_intersect` on the segment that starts at
    /// `intersect_index`.
    pub fn create<F, S>(
        source: &Polyline<T>,
        start_index: usize,
        end_intersect: Vector2<T>,
        intersect_index: usize,
        updated_start: PlineVertex<T>,
        traverse_count: usize,
        pos_equal: &F,
        split: &S,
    ) -> (r: Self)
        where
            F: Fn(Vector2<T>, Vector2<T>) -> bool,
            S: Fn(PlineVertex<T>, PlineVertex<T>, Vector2<T>) -> SplitResult<T>,
        requires
            traverse_count != 0,
            intersect_index < source.spec_len(),
            spec_total(*pos_equal),
            spec_split_total(*split),
        ensures
            spec_create_slice(
                *pos_equal,
                *split,
                source.vertex_data@,
                start_index,
                end_intersect,
                intersect_index,
                updated_start,
                traverse_count,
                r,
            ),
    {
        let ghost vs = source.vertex_data@;
        let ghost n = vs.len() as int;
        let current = source.at(intersect_index);
        let on_vertex = pos_equal(end_intersect, current.pos());
        assert(pos_equal.ensures((end_intersect, vs[intersect_index as int].spec_pos()), on_vertex));
        if on_vertex {
            let offset = traverse_count - 1;
            let updated_end_bulge = if offset != 0 {
                let prev = source.prev_wrapping_index(intersect_index);
                assert(spec_prev_wrapping_index(n, intersect_index as int) == prev as int);
                source.at(prev).bulge
            } else {
                updated_start.bulge
            };
            OpenPlineSlice {
                start_index,
                end_index_offset: offset,
                updated_start,
                updated_end_bulge,
                end_point: end_intersect,
                inverted: false,
            }
        } else {
            let next_index = source.next_wrapping_index(intersect_index);
            assert(next_index == spec_next_wrapping_index(n, intersect_index as int));
            let sp = split(current, source.at(next_index), end_intersect);
            assert(split.ensures(
                (current, vs[spec_next_wrapping_index(n, intersect_index as int)], end_intersect),
                sp,
            ));
            OpenPlineSlice {
                start_index,
                end_index_offset: traverse_count,
                updated_start,
                updated_end_bulge: sp.updated_start.bulge,
                end_point: end_intersect,
                inverted: false,
            }
        }
    }

    /// Slice of `source` between `start_point`, on segment `start_index`, and `end_point`, on
    /// segment `end_index`, walking forward. `None` when it would collapse to a point.
    pub fn from_slice_points<F, S>(
        source: &Polyline<T>,
        start_point: Vector2<T>,
        start_index: usize,
        end_point: Vector2<T>,
        end_index: usize,
        pos_equal: &F,
        split: &S,
    ) -> (r: Option<Self>)
        where
            F: Fn(Vector2<T>, Vector2<T>) -> bool,
            S: Fn(PlineVertex<T>, PlineVertex<T>, Vector2<T>) -> SplitResult<T>,
        requires
            start_index < source.spec_len(),
            end_index < source.spec_len(),
            spec_total(*pos_equal),
            spec_split_total(*split),
        ensures
            spec_slice_from_points(
                *pos_equal,
                *split,
                source.vertex_data@,
                source.is_closed,
                start_point,
                start_index,
                end_point,
                end_index,
                r,
            ),
    {
        let ghost vs = source.vertex_data@;
        let ghost n = vs.len() as int;
        let may_move = source.is_closed || start_index < end_index;
        let mut at_seg_end = false;
        let mut si = start_index;
        if may_move {
            let next = source.next_wrapping_index(start_index);
            assert(next == spec_next_wrapping_index(n, start_index as int));
            at_seg_end = pos_equal(source.at(next).pos(), start_point);
            assert(pos_equal.ensures((vs[next as int].spec_pos(), start_point), at_seg_end));
            if at_seg_end {
                si = next;
            }
        }
        let moved = may_move && at_seg_end;
        let traverse_count = source.fwd_wrapping_dist(si, end_index);
        let si_next = source.next_wrapping_index(si);
        assert(si_next == spec_next_wrapping_index(n, si as int));
        let v1 = source.at(si);
        let v2 = source.at(si_next);
        let updated_start = if moved {
            if traverse_count == 0 {
                let sp = split(v1, v2, end_point);
                assert(split.ensures((v1, v2, end_point), sp));
                sp.updated_start
            } else {
                v1
            }
        } else {
            let sp1 = split(v1, v2, start_point);
            assert(split.ensures((v1, v2, start_point), sp1));
            if traverse_count == 0 {
                let sp2 = split(sp1.split_vertex, v2, end_point);
                assert(split.ensures((sp1.split_vertex, v2, end_point), sp2));
                sp2.updated_start
            } else {
                sp1.split_vertex
            }
        };
        assert(spec_slice_start_vertex(
            *split,
            vs[si as int],
            vs[spec_next_wrapping_index(n, si as int)],
            moved,
            traverse_count as int,
            start_point,
            end_point,
            updated_start,
        ));
        let r = if traverse_count == 0 {
            Self::create_on_single_segment(source, si, updated_start, end_point, pos_equal)
        } else {
            Some(
                Self::create(
                    source,
                    si,
                    end_point,
                    end_index,
                    updated_start,
                    traverse_count,
                    pos_equal,
                    split,
                ),
            )
        };
        assert(spec_slice_from_start(
            *pos_equal,
            *split,
            vs,
            si as int,
            moved,
            start_point,
            end_point,
            end_index,
            r,
        ));
        assert(spec_slice_from_points_answer(
            *pos_equal,
            *split,
            vs,
            source.is_closed,
            start_point,
            start_index,
            end_point,
            end_index,
            r,
            at_seg_end,
        ));
        r
    }

    /// Slice that covers the whole of `source`, which has at least two vertexes. For a closed
    /// source it ends back at the first vertex.
    pub fn from_entire_pline(source: &Polyline<T>) -> (r: Self)
        requires
            source.spec_len() >= 2,
        ensures
            r.start_index == 0,
            r.updated_start == source.vertex_data@[0],
            !r.inverted,
            source.is_closed ==> r.end_index_offset == source.spec_len() - 1
                && r.updated_end_bulge == source.vertex_data@.last().bulge && r.end_point
                == source.vertex_data@[0].spec_pos(),
            !source.is_closed ==> r.end_index_offset == source.spec_len() - 2
                && r.updated_end_bulge == source.vertex_data@[source.spec_len() - 2].bulge
                && r.end_point == source.vertex_data@.last().spec_pos(),
    {
        let vc = source.vertex_count();
        if source.is_closed() {
            OpenPlineSlice {
                start_index: 0,
                end_index_offset: vc - 1,
                updated_start: source.at(0),
                updated_end_bulge: source.at(vc - 1).bulge,
                end_point: source.at(0).pos(),
                inverted: false,
            }
        } else {
            OpenPlineSlice {
                start_index: 0,
                end_index_offset: vc - 2,
                updated_start: source.at(0),
                updated_end_bulge: source.at(vc - 2).bulge,
                end_point: source.at(vc - 1).pos(),
                inverted: false,
            }
        }
    }

    pub fn start_index(&self) -> (r: usize)
        ensures
            r == self.start_index,
    {
        self.start_index
    }

    pub fn end_index_offset(&self) -> (r: usize)
        ensures
            r == self.end_index_offset,
    {
        self.end_index_offset
    }

    pub fn updated_start(&self) -> (r: PlineVertex<T>)
        ensures
            r == self.updated_start,
    {
        self.updated_start
    }

    pub fn updated_end_bulge(&self) -> (r: T)
        ensures
            r == self.updated_end_bulge,
    {
        self.updated_end_bulge
    }

    pub fn end_point(&self) -> (r: Vector2<T>)
        ensures
            r == self.end_point,
    {
        self.end_point
    }

    pub fn inverted_direction(&self) -> (r: bool)
        ensures
            r == self.inverted,
    {
        self.inverted
    }

    /// Number of vertexes the slice yields.
    pub fn vertex_count(&self) -> (r: usize)
        requires
            self.end_index_offset + 2 <= usize::MAX,
        ensures
            r == self.end_index_offset + 2,
    {
        2 + self.end_index_offset
    }

    /// The slice as view data.
    pub fn view_data(&self) -> (r: PlineViewData<T>)
        ensures
            r == self.spec_view_data(),
    {
        PlineViewData {
            start_index: self.start_index,
            end_index_offset: self.end_index_offset,
            updated_start: self.updated_start,
            updated_end_bulge: self.updated_end_bulge,
            end_point: self.end_point,
            inverted_direction: self.inverted,
        }
    }

    /// View of `source` that this slice describes.
    pub fn view<'a>(&self, source: &'a Polyline<T>) -> (r: PlineView<'a, T>)
        ensures
            r.data == self.spec_view_data(),
            r.source == source,
    {
        PlineView { source, data: self.view_data() }
    }
}

impl<T: Copy + Default> OpenPlineSlice<T> {

    /// Check this slice against `source`; see `PlineViewData::validate_for_source`.
    pub fn validate_for_source<P, F, B>(
        &self,
        source: &Polyline<T>,
        on_segment: &P,
        pos_equal: &F,
        bulge_equal: &B,
    ) -> (r: SliceValidation<T>)
        where
            P: Fn(PlineVertex<T>, PlineVertex<T>, Vector2<T>) -> bool,
            F: Fn(Vector2<T>, Vector2<T>) -> bool,
            B: Fn(T, T) -> bool,
        requires
            self.start_index < source.spec_len(),
            forall|a: PlineVertex<T>, b: PlineVertex<T>, p: Vector2<T>| #[trigger] on_segment.requires((a, b, p)),
            spec_total(*pos_equal),
            forall|a: T, b: T| #[trigger] bulge_equal.requires((a, b)),
        ensures
            self.end_index_offset > source.spec_len() ==> r == (SliceValidation::<T>::OffsetOutOfRange {
                offset: self.end_index_offset,
                source_length: source.spec_len() as usize,
            }),
            self.end_index_offset <= source.spec_len() ==> exists|a: bool, b: bool, c: bool, d: bool|
                #[trigger] spec_validation_answers_fit(
                    *on_segment,
                    *pos_equal,
                    *bulge_equal,
                    self.spec_view_data(),
                    source.vertex_data@,
                    a,
                    b,
                    c,
                    d,
                ) && r == spec_validation_result(self.spec_view_data(), source.vertex_data@, a, b, c, d),
    {
        self.view_data().validate_for_source(source, on_segment, pos_equal, bulge_equal)
    }
    /// Open polyline of the slice's vertexes over `source`, without repeated positions.
    pub fn to_polyline<N: Fn(T) -> T, F: Fn(Vector2<T>, Vector2<T>) -> bool>(
        &self,
        source: &Polyline<T>,
        neg: &N,
        pos_equal: &F,
    ) -> (r: Polyline<T>)
        requires
            spec_scalar_total(*neg),
            spec_view_fits(self.spec_view_data(), source.spec_len()),
            spec_total(*pos_equal),
        ensures
            !r.is_closed,
            exists|vs: Seq<PlineVertex<T>>, same: Seq<bool>|
                spec_view_vertexes(*neg, self.spec_view_data(), source.vertex_data@, vs) && #[trigger] spec_merge_run(
                    *pos_equal,
                    Seq::empty(),
                    vs,
                    same,
                ) == Some(r.vertex_data@),
    {
        self.view(source).to_polyline(neg, pos_equal)
    }

    /// Append the slice's vertexes over `source` to `target`, merging repeated positions.
    pub fn stitch_onto<N: Fn(T) -> T, F: Fn(Vector2<T>, Vector2<T>) -> bool>(
        &self,
        source: &Polyline<T>,
        target: &mut Polyline<T>,
        neg: &N,
        pos_equal: &F,
    )
        requires
            spec_scalar_total(*neg),
            spec_view_fits(self.spec_view_data(), source.spec_len()),
            spec_total(*pos_equal),
        ensures
            final(target).is_closed == old(target).is_closed,
            exists|vs: Seq<PlineVertex<T>>, same: Seq<bool>|
                spec_view_vertexes(*neg, self.spec_view_data(), source.vertex_data@, vs) && #[trigger] spec_merge_run(
                    *pos_equal,
                    old(target).vertex_data@,
                    vs,
                    same,
                ) == Some(final(target).vertex_data@),
    {
        self.view(source).stitch_onto(target, neg, pos_equal)
    }
}

/// The slice of a whole polyline yields the polyline's vertexes in order, unchanged, and then
/// the position where the polyline ends: its first vertex again when closed.
pub proof fn lemma_entire_pline_slice<T: Copy + Default, N: Fn(T) -> T>(
    neg: N,
    source: Polyline<T>, slice: OpenPlineSlice<T>, k: int, v: PlineVertex<T>)
    requires
        source.spec_len() >= 2,
        slice.start_index == 0,
        slice.updated_start == source.vertex_data@[0],
        !slice.inverted,
        source.is_closed ==> slice.end_index_offset == source.spec_len() - 1
            && slice.updated_end_bulge == source.vertex_data@.last().bulge && slice.end_point
            == source.vertex_data@[0].spec_pos(),
        !source.is_closed ==> slice.end_index_offset == source.spec_len() - 2
            && slice.updated_end_bulge == source.vertex_data@[source.spec_len() - 2].bulge
            && slice.end_point == source.vertex_data@.last().spec_pos(),
        0 <= k <= slice.end_index_offset + 1,
        spec_view_vertex(neg, slice.spec_view_data(), source.vertex_data@, k, v),
    ensures
        k <= slice.end_index_offset ==> v == source.vertex_data@[k],
        k == slice.end_index_offset + 1 && source.is_closed ==> v.spec_pos()
            == source.vertex_data@[0].spec_pos(),
        k == slice.end_index_offset + 1 && !source.is_closed ==> v.spec_pos()
            == source.vertex_data@.last().spec_pos(),
{
    let src = source.vertex_data@;
    if k == slice.end_index_offset && k > 0 {
        assert(src[k].spec_with_bulge(src[k].bulge) == src[k]);
    }
}

/// A slice produced by a boolean operation, recording which input polyline it came from and
/// whether it lies where the two inputs overlap.
#[derive(Debug, Copy, Clone)]
pub struct BooleanPlineSlice<T> {
    pub start_index: usize,
    pub end_index_offset: usize,
    pub updated_start: PlineVertex<T>,
    pub updated_end_bulge: T,
    pub end_point: Vector2<T>,
    pub source_is_pline1: bool,
    pub inverted: bool,
    pub overlapping: bool,
}

impl<T: Copy> BooleanPlineSlice<T> {
    pub open spec fn spec_view_data(&self) -> PlineViewData<T> {
        PlineViewData {
            start_index: self.start_index,
            end_index_offset: self.end_index_offset,
            updated_start: self.updated_start,
            updated_end_bulge: self.updated_end_bulge,
            end_point: self.end_point,
            inverted_direction: self.inverted,
        }
    }

    /// Boolean slice with the same path as `slice`, not overlapping.
    pub fn from_open_pline_slice(slice: &OpenPlineSlice<T>, source_is_pline1: bool, inverted: bool) -> (r: Self)
        ensures
            r.start_index == slice.start_index,
            r.end_index_offset == slice.end_index_offset,
            r.updated_start == slice.updated_start,
            r.updated_end_bulge == slice.updated_end_bulge,
            r.end_point == slice.end_point,
            r.source_is_pline1 == source_is_pline1,
            r.inverted == inverted,
            !r.overlapping,
    {
        BooleanPlineSlice {
            start_index: slice.start_index,
            end_index_offset: slice.end_index_offset,
            updated_start: slice.updated_start,
            updated_end_bulge: slice.updated_end_bulge,
            end_point: slice.end_point,
            source_is_pline1,
            inverted,
            overlapping: false,
        }
    }

    pub fn start_index(&self) -> (r: usize)
        ensures
            r == self.start_index,
    {
        self.start_index
    }

    pub fn end_index_offset(&self) -> (r: usize)
        ensures
            r == self.end_index_offset,
    {
        self.end_index_offset
    }

    pub fn updated_start(&self) -> (r: PlineVertex<T>)
        ensures
            r == self.updated_start,
    {
        self.updated_start
    }

    pub fn updated_end_bulge(&self) -> (r: T)
        ensures
            r == self.updated_end_bulge,
    {
        self.updated_end_bulge
    }

    pub fn end_point(&self) -> (r: Vector2<T>)
        ensures
            r == self.end_point,
    {
        self.end_point
    }

    pub fn inverted_direction(&self) -> (r: bool)
        ensures
            r == self.inverted,
    {
        self.inverted
    }

    /// Number of vertexes the slice yields.
    pub fn vertex_count(&self) -> (r: usize)
        requires
            self.end_index_offset + 2 <= usize::MAX,
        ensures
            r == self.end_index_offset + 2,
    {
        2 + self.end_index_offset
    }

    /// The slice as view data.
    pub fn view_data(&self) -> (r: PlineViewData<T>)
        ensures
            r == self.spec_view_data(),
    {
        PlineViewData {
            start_index: self.start_index,
            end_index_offset: self.end_index_offset,
            updated_start: self.updated_start,
            updated_end_bulge: self.updated_end_bulge,
            end_point: self.end_point,
            inverted_direction: self.inverted,
        }
    }

    /// View of `source` that this slice describes.
    pub fn view<'a>(&self, source: &'a Polyline<T>) -> (r: PlineView<'a, T>)
        ensures
            r.data == self.spec_view_data(),
            r.source == source,
    {
        PlineView { source, data: self.view_data() }
    }
}

impl<T: Copy + Default> BooleanPlineSlice<T> {

    /// Check this slice against `source`; see `PlineViewData::validate_for_source`.
    pub fn validate_for_source<P, F, B>(
        &self,
        source: &Polyline<T>,
        on_segment: &P,
        pos_equal: &F,
        bulge_equal: &B,
    ) -> (r: SliceValidation<T>)
        where
            P: Fn(PlineVertex<T>, PlineVertex<T>, Vector2<T>) -> bool,
            F: Fn(Vector2<T>, Vector2<T>) -> bool,
            B: Fn(T, T) -> bool,
        requires
            self.start_index < source.spec_len(),
            forall|a: PlineVertex<T>, b: PlineVertex<T>, p: Vector2<T>| #[trigger] on_segment.requires((a, b, p)),
            spec_total(*pos_equal),
            forall|a: T, b: T| #[trigger] bulge_equal.requires((a, b)),
        ensures
            self.end_index_offset > source.spec_len() ==> r == (SliceValidation::<T>::OffsetOutOfRange {
                offset: self.end_index_offset,
                source_length: source.spec_len() as usize,
            }),
            self.end_index_offset <= source.spec_len() ==> exists|a: bool, b: bool, c: bool, d: bool|
                #[trigger] spec_validation_answers_fit(
                    *on_segment,
                    *pos_equal,
                    *bulge_equal,
                    self.spec_view_data(),
                    source.vertex_data@,
                    a,
                    b,
                    c,
                    d,
                ) && r == spec_validation_result(self.spec_view_data(), source.vertex_data@, a, b, c, d),
    {
        self.view_data().validate_for_source(source, on_segment, pos_equal, bulge_equal)
    }
    /// Open polyline of the slice's vertexes over `source`, without repeated positions.
    pub fn to_polyline<N: Fn(T) -> T, F: Fn(Vector2<T>, Vector2<T>) -> bool>(
        &self,
        source: &Polyline<T>,
        neg: &N,
        pos_equal: &F,
    ) -> (r: Polyline<T>)
        requires
            spec_scalar_total(*neg),
            spec_view_fits(self.spec_view_data(), source.spec_len()),
            spec_total(*pos_equal),
        ensures
            !r.is_closed,
            exists|vs: Seq<PlineVertex<T>>, same: Seq<bool>|
                spec_view_vertexes(*neg, self.spec_view_data(), source.vertex_data@, vs) && #[trigger] spec_merge_run(
                    *pos_equal,
                    Seq::empty(),
                    vs,
                    same,
                ) == Some(r.vertex_data@),
    {
        self.view(source).to_polyline(neg, pos_equal)
    }

    /// Append the slice's vertexes over `source` to `target`, merging repeated positions.
    pub fn stitch_onto<N: Fn(T) -> T, F: Fn(Vector2<T>, Vector2<T>) -> bool>(
        &self,
        source: &Polyline<T>,
        target: &mut Polyline<T>,
        neg: &N,
        pos_equal: &F,
    )
        requires
            spec_scalar_total(*neg),
            spec_view_fits(self.spec_view_data(), source.spec_len()),
            spec_total(*pos_equal),
        ensures
            final(target).is_closed == old(target).is_closed,
            exists|vs: Seq<PlineVertex<T>>, same: Seq<bool>|
                spec_view_vertexes(*neg, self.spec_view_data(), source.vertex_data@, vs) && #[trigger] spec_merge_run(
                    *pos_equal,
                    old(target).vertex_data@,
                    vs,
                    same,
                ) == Some(final(target).vertex_data@),
    {
        self.view(source).stitch_onto(target, neg, pos_equal)
    }
}

} // verus!
