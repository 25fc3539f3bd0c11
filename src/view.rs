use vstd::prelude::*;

use crate::polyline::{
    spec_fwd_wrapping_index, spec_next_wrapping_index, spec_scalar_total, Polyline,
};
use crate::slice::SliceValidation;
use crate::repeats::{merge_onto, spec_merge_run, spec_total};
use crate::vertex::{PlineVertex, Vector2};

verus! {

/// The data that describes a view over a contiguous part of a source polyline, without the
/// source itself.
///
/// The view begins at `updated_start`, somewhere on the source segment `start_index`, follows
/// the source for `end_index_offset` segments (wrapping past the last vertex), and ends at
/// `end_point`, on segment `start_index + end_index_offset`. `updated_end_bulge` is the bulge of
/// that last, trimmed, segment. When `inverted_direction` is set the same path is walked
/// backwards.
#[derive(Debug, Clone, Copy)]
pub struct PlineViewData<T> {
    pub start_index: usize,
    pub end_index_offset: usize,
    pub updated_start: PlineVertex<T>,
    pub updated_end_bulge: T,
    pub end_point: Vector2<T>,
    pub inverted_direction: bool,
}

/// The data fits a source of `n` vertexes: the start segment exists and the path wraps at most
/// once; the view's vertex count fits in `usize`.
pub open spec fn spec_view_fits<T>(data: PlineViewData<T>, n: nat) -> bool {
    &&& data.start_index < n
    &&& data.end_index_offset <= n
    &&& data.end_index_offset + 2 <= usize::MAX
}

/// `v` is vertex `index` of the view `data` over the source vertexes `src`.
///
/// Walking forward, the view yields `updated_start`, then the source vertexes that follow it,
/// the last of them carrying `updated_end_bulge`, and finally `end_point`. Walking backward it
/// yields the same positions in reverse order, each with the bulge of the segment that now ends
/// at it negated by `neg`. The final vertex, in either direction, has bulge zero (the scalar's
/// `Default`).
pub open spec fn spec_view_vertex<T: Default, N: Fn(T) -> T>(
    neg: N,
    data: PlineViewData<T>,
    src: Seq<PlineVertex<T>>,
    index: int,
    v: PlineVertex<T>,
) -> bool {
    let n = src.len();
    let s = data.start_index as int;
    let e = data.end_index_offset as int;
    if !data.inverted_direction {
        if index == 0 {
            v == data.updated_start
        } else if index < e {
            v == src[spec_fwd_wrapping_index(n, s, index)]
        } else if index == e {
            v == src[spec_fwd_wrapping_index(n, s, e)].spec_with_bulge(data.updated_end_bulge)
        } else {
            v.spec_pos() == data.end_point && call_ensures(T::default, (), v.bulge)
        }
    } else {
        if index == 0 {
            v.spec_pos() == data.end_point && neg.ensures((data.updated_end_bulge,), v.bulge)
        } else if index < e {
            let bi = spec_fwd_wrapping_index(n, s, e - index);
            v.spec_pos() == src[spec_fwd_wrapping_index(n, bi, 1)].spec_pos()
                && neg.ensures((src[bi].bulge,), v.bulge)
        } else if index == e {
            v.spec_pos() == src[spec_fwd_wrapping_index(n, s, 1)].spec_pos() && neg.ensures((data.updated_start.bulge,), v.bulge)
        } else {
            v.spec_pos() == data.updated_start.spec_pos() && call_ensures(T::default, (), v.bulge)
        }
    }
}

/// `vs` are all the vertexes of the view `data` over `src`, in order.
pub open spec fn spec_view_vertexes<T: Default, N: Fn(T) -> T>(
    neg: N,
    data: PlineViewData<T>,
    src: Seq<PlineVertex<T>>,
    vs: Seq<PlineVertex<T>>,
) -> bool {
    &&& vs.len() == data.end_index_offset + 2
    &&& forall|k: int| 0 <= k < vs.len() ==> spec_view_vertex(neg, data, src, k, #[trigger] vs[k])
}

/// Outcome of checking `data` against `src` for the answers `on_start`, `on_end`, `end_on_vertex`
/// and `bulge_matches` of the three tests, checked in this order: the start lies on its
/// segment, the end point lies on its segment, the end point is not the start vertex of that
/// segment, and a slice within one segment keeps one bulge.
pub open spec fn spec_validation_result<T>(
    data: PlineViewData<T>,
    src: Seq<PlineVertex<T>>,
    on_start: bool,
    on_end: bool,
    end_on_vertex: bool,
    bulge_matches: bool,
) -> SliceValidation<T> {
    let end_index = spec_fwd_wrapping_index(src.len(), data.start_index as int, data.end_index_offset as int);
    if !on_start {
        SliceValidation::UpdatedStartNotOnSegment { start_point: data.updated_start.spec_pos() }
    } else if !on_end {
        SliceValidation::EndPointNotOnSegment { end_point: data.end_point }
    } else if end_on_vertex {
        SliceValidation::EndPointOnFinalOffsetVertex {
            end_point: data.end_point,
            final_offset_vertex: src[end_index],
        }
    } else if data.end_index_offset == 0 && !bulge_matches {
        SliceValidation::UpdatedBulgeDoesNotMatch {
            updated_bulge: data.updated_end_bulge,
            expected: data.updated_start.bulge,
        }
    } else {
        SliceValidation::IsValid
    }
}

/// The answers are ones the three tests give for the questions that the checks in order ask:
/// `on_segment` for the start and the end point on their segments, `pos_equal` for the end
/// point against the start vertex of its segment, `bulge_equal` for the two bulges of a slice
/// within one segment.
pub open spec fn spec_validation_answers_fit<
    T,
    P: Fn(PlineVertex<T>, PlineVertex<T>, Vector2<T>) -> bool,
    F: Fn(Vector2<T>, Vector2<T>) -> bool,
    B: Fn(T, T) -> bool,
>(
    on_segment: P,
    pos_equal: F,
    bulge_equal: B,
    data: PlineViewData<T>,
    src: Seq<PlineVertex<T>>,
    on_start: bool,
    on_end: bool,
    end_on_vertex: bool,
    bulge_matches: bool,
) -> bool {
    let n = src.len() as int;
    let s = data.start_index as int;
    let ei = spec_fwd_wrapping_index(src.len(), s, data.end_index_offset as int);
    &&& on_segment.ensures(
        (src[s], src[spec_next_wrapping_index(n, s)], data.updated_start.spec_pos()),
        on_start,
    )
    &&& on_start ==> on_segment.ensures(
        (src[ei], src[spec_next_wrapping_index(n, ei)], data.end_point),
        on_end,
    )
    &&& on_start && on_end ==> pos_equal.ensures((data.end_point, src[ei].spec_pos()), end_on_vertex)
    &&& on_start && on_end && !end_on_vertex && data.end_index_offset == 0 ==> bulge_equal.ensures(
        (data.updated_end_bulge, data.updated_start.bulge),
        bulge_matches,
    )
}

/// Vertex `index` of the view `data` over `source`, or `None` past the view's last vertex.
fn view_vertex<T: Copy + Default, N: Fn(T) -> T>(
    data: &PlineViewData<T>,
    source: &Polyline<T>,
    index: usize,
    neg: &N,
) -> (r: Option<PlineVertex<T>>)
    requires
        spec_view_fits(*data, source.spec_len()),
        spec_scalar_total(*neg),
    ensures
        index > data.end_index_offset + 1 ==> r.is_none(),
        index <= data.end_index_offset + 1 ==> r.is_some() && spec_view_vertex(
            *neg,
            *data,
            source.vertex_data@,
            index as int,
            r.unwrap(),
        ),
{
    if index > data.end_index_offset + 1 {
        return None;
    }
    if data.inverted_direction {
        if index == 0 {
            let v = PlineVertex::from_vector2(data.end_point, neg(data.updated_end_bulge));
            return Some(v);
        }
        if index < data.end_index_offset {
            let bulge_i = source.fwd_wrapping_index(
                data.start_index,
                data.end_index_offset - index,
            );
            let i = source.next_wrapping_index(bulge_i);
            let b = neg(source.at(bulge_i).bulge);
            return Some(source.at(i).with_bulge(b));
        }
        if index == data.end_index_offset {
            let i = source.fwd_wrapping_index(data.start_index, data.end_index_offset - index + 1);
            let b = neg(data.updated_start.bulge);
            return Some(source.at(i).with_bulge(b));
        }
        Some(data.updated_start.with_bulge(T::default()))
    } else {
        if index == 0 {
            return Some(data.updated_start);
        }
        if index < data.end_index_offset {
            let i = source.fwd_wrapping_index(data.start_index, index);
            return Some(source.at(i));
        }
        if index == data.end_index_offset {
            let i = source.fwd_wrapping_index(data.start_index, data.end_index_offset);
            return Some(source.at(i).with_bulge(data.updated_end_bulge));
        }
        Some(PlineVertex::from_vector2(data.end_point, T::default()))
    }
}

impl<T: Copy> PlineViewData<T> {

    /// Check that this data describes a slice of `source`: the offset wraps at most once, the
    /// start lies on segment `start_index` and the end point on the segment it ends on
    /// (`on_segment`), the end point is not that segment's start vertex (`pos_equal`), and a
    /// slice within one segment keeps one bulge (`bulge_equal`).
    pub fn validate_for_source<P, F, B>(
        &self,
        source: &Polyline<T>,
        on_segment: &P,
        pos_equal: &F,
        bulge_equal: &B,
    ) -> (r: SliceValidation<T>)
        where
            P: Fn(PlineVertex<T>, PlineVertex<T>, Vector2<T>) -> bool,
            F: Fn(Vector2<T>, Vector2<T>) -> bool,
            B: Fn(T, T) -> bool,
        requires
            self.start_index < source.spec_len(),
            forall|a: PlineVertex<T>, b: PlineVertex<T>, p: Vector2<T>| #[trigger] on_segment.requires((a, b, p)),
            spec_total(*pos_equal),
            forall|a: T, b: T| #[trigger] bulge_equal.requires((a, b)),
        ensures
            self.end_index_offset > source.spec_len() ==> r == (SliceValidation::<T>::OffsetOutOfRange {
                offset: self.end_index_offset,
                source_length: source.spec_len() as usize,
            }),
            self.end_index_offset <= source.spec_len() ==> exists|a: bool, b: bool, c: bool, d: bool|
                #[trigger] spec_validation_answers_fit(
                    *on_segment,
                    *pos_equal,
                    *bulge_equal,
                    *self,
                    source.vertex_data@,
                    a,
                    b,
                    c,
                    d,
                ) && r == spec_validation_result(*self, source.vertex_data@, a, b, c, d),
    {
        let n = source.vertex_count();
        if self.end_index_offset > n {
            return SliceValidation::OffsetOutOfRange { offset: self.end_index_offset, source_length: n };
        }
        let ghost src = source.vertex_data@;
        let s = self.start_index;
        let s_next = source.next_wrapping_index(s);
        let on_start = on_segment(source.at(s), source.at(s_next), self.updated_start.pos());
        let end_index = source.fwd_wrapping_index(s, self.end_index_offset);
        let mut on_end = false;
        let mut end_on_vertex = false;
        let mut bulge_matches = false;
        let r = if !on_start {
            SliceValidation::UpdatedStartNotOnSegment { start_point: self.updated_start.pos() }
        } else {
            let e_next = source.next_wrapping_index(end_index);
            on_end = on_segment(source.at(end_index), source.at(e_next), self.end_point);
            if !on_end {
                SliceValidation::EndPointNotOnSegment { end_point: self.end_point }
            } else {
                end_on_vertex = pos_equal(self.end_point, source.at(end_index).pos());
                if end_on_vertex {
                    SliceValidation::EndPointOnFinalOffsetVertex {
                        end_point: self.end_point,
                        final_offset_vertex: source.at(end_index),
                    }
                } else if self.end_index_offset == 0 {
                    bulge_matches = bulge_equal(self.updated_end_bulge, self.updated_start.bulge);
                    if !bulge_matches {
                        SliceValidation::UpdatedBulgeDoesNotMatch {
                            updated_bulge: self.updated_end_bulge,
                            expected: self.updated_start.bulge,
                        }
                    } else {
                        SliceValidation::IsValid
                    }
                } else {
                    SliceValidation::IsValid
                }
            }
        };
        assert(spec_validation_answers_fit(
            *on_segment,
            *pos_equal,
            *bulge_equal,
            *self,
            src,
            on_start,
            on_end,
            end_on_vertex,
            bulge_matches,
        ));
        r
    }
    /// View of `source` described by this data.
    pub fn view<'a>(&self, source: &'a Polyline<T>) -> (r: PlineView<'a, T>)
        ensures
            r.data == *self,
            r.source == source,
    {
        PlineView { source, data: *self }
    }
}

/// A contiguous part of a source polyline, read through the source without copying it. A view
/// is always open.
#[derive(Debug, Clone, Copy)]
pub struct PlineView<'a, T> {
    pub source: &'a Polyline<T>,
    pub data: PlineViewData<T>,
}

impl<'a, T: Copy> PlineView<'a, T> {
    pub open spec fn spec_wf(&self) -> bool {
        spec_view_fits(self.data, self.source.spec_len())
    }

    /// The view's data, without the source.
    pub fn detach(self) -> (r: PlineViewData<T>)
        ensures
            r == self.data,
    {
        self.data
    }

    /// Number of vertexes: the trimmed start, one per source vertex passed, and the end point.
    pub fn vertex_count(&self) -> (r: usize)
        requires
            self.data.end_index_offset + 2 <= usize::MAX,
        ensures
            r == self.data.end_index_offset + 2,
    {
        self.data.end_index_offset + 2
    }

    /// A view is open.
    pub fn is_closed(&self) -> (r: bool)
        ensures
            !r,
    {
        false
    }
}

impl<'a, T: Copy + Default> PlineView<'a, T> {
    /// Vertex at `index`, or `None` when `index` is past the last vertex.
    pub fn get<N: Fn(T) -> T>(&self, index: usize, neg: &N) -> (r: Option<PlineVertex<T>>)
        requires
            self.spec_wf(),
            spec_scalar_total(*neg),
        ensures
            index > self.data.end_index_offset + 1 ==> r.is_none(),
            index <= self.data.end_index_offset + 1 ==> r.is_some() && spec_view_vertex(
                *neg,
                self.data,
                self.source.vertex_data@,
                index as int,
                r.unwrap(),
            ),
    {
        view_vertex(&self.data, self.source, index, neg)
    }

    /// Vertex at `index`, which must be in range.
    pub fn at<N: Fn(T) -> T>(&self, index: usize, neg: &N) -> (r: PlineVertex<T>)
        requires
            self.spec_wf(),
            spec_scalar_total(*neg),
            index <= self.data.end_index_offset + 1,
        ensures
            spec_view_vertex(*neg, self.data, self.source.vertex_data@, index as int, r),
    {
        view_vertex(&self.data, self.source, index, neg).unwrap()
    }

    /// All the vertexes of the view, in order.
    pub fn vertexes<N: Fn(T) -> T>(&self, neg: &N) -> (r: Vec<PlineVertex<T>>)
        requires
            self.spec_wf(),
            spec_scalar_total(*neg),
        ensures
            spec_view_vertexes(*neg, self.data, self.source.vertex_data@, r@),
    {
        let count = self.data.end_index_offset + 2;
        let mut result: Vec<PlineVertex<T>> = Vec::with_capacity(count);
        let mut i: usize = 0;
        while i < count
            invariant
                self.spec_wf(),
                spec_scalar_total(*neg),
                count == self.data.end_index_offset + 2,
                i <= count,
                result@.len() == i,
                forall|k: int|
                    0 <= k < i ==> spec_view_vertex(
                        *neg,
                        self.data,
                        self.source.vertex_data@,
                        k,
                        #[trigger] result@[k],
                    ),
            decreases count - i,
        {
            let v = self.at(i, neg);
            result.push(v);
            i = i + 1;
        }
        result
    }

    /// Append the view's vertexes to `target` with `Polyline::add_or_replace_vertex`, so that
    /// no position repeats where `pos_equal` says two positions are the same.
    pub fn stitch_onto<N: Fn(T) -> T, F: Fn(Vector2<T>, Vector2<T>) -> bool>(
        &self,
        target: &mut Polyline<T>,
        neg: &N,
        pos_equal: &F,
    )
        requires
            self.spec_wf(),
            spec_scalar_total(*neg),
            spec_total(*pos_equal),
        ensures
            final(target).is_closed == old(target).is_closed,
            exists|vs: Seq<PlineVertex<T>>, same: Seq<bool>|
                spec_view_vertexes(*neg, self.data, self.source.vertex_data@, vs) && #[trigger] spec_merge_run(
                    *pos_equal,
                    old(target).vertex_data@,
                    vs,
                    same,
                ) == Some(final(target).vertex_data@),
    {
        let vs = self.vertexes(neg);
        target.reserve(vs.len());
        merge_onto(target, &vs, 0, pos_equal);
        assert(vs@.subrange(0, vs@.len() as int) =~= vs@);
    }

    /// Open polyline of the view's vertexes, without repeated positions.
    pub fn to_polyline<N: Fn(T) -> T, F: Fn(Vector2<T>, Vector2<T>) -> bool>(
        &self,
        neg: &N,
        pos_equal: &F,
    ) -> (r: Polyline<T>)
        requires
            self.spec_wf(),
            spec_scalar_total(*neg),
            spec_total(*pos_equal),
        ensures
            !r.is_closed,
            exists|vs: Seq<PlineVertex<T>>, same: Seq<bool>|
                spec_view_vertexes(*neg, self.data, self.source.vertex_data@, vs) && #[trigger] spec_merge_run(
                    *pos_equal,
                    Seq::empty(),
                    vs,
                    same,
                ) == Some(r.vertex_data@),
    {
        let mut result = Polyline::with_capacity(self.data.end_index_offset + 2, false);
        assert(result.vertex_data@ =~= Seq::empty());
        self.stitch_onto(&mut result, neg, pos_equal);
        result
    }
}

} // verus!
