//! Polylines made of line and arc segments: vertex storage, wrapping index arithmetic, segment
//! traversal, views and slices over contiguous parts of a polyline and their validation,
//! removal of repeated positions and of redundant vertexes, and the value types and decisions
//! of intersection and boolean operations.
//!
//! Every item is generic over the scalar type `T` of coordinates and bulges. The library copies
//! and reorders scalars and never computes with them itself: negating a bulge, scaling or
//! moving a position, comparing two positions, splitting a segment and judging whether a vertex
//! is redundant are functions that the caller passes in, and each contract states its result
//! in terms of what those functions returned. The final vertex of a view carries the scalar's
//! `Default` as its bulge.

mod boolean;
mod intersects;
mod polyline;
mod redundant;
mod repeats;
mod seg_index;
mod seg_iter;
mod slice;
mod split;
mod topology;
mod vertex;
mod view;

pub use boolean::{
    boolean_of_disjoint, keep_overlapping_slice, slice_selection, spec_disjoint_boolean,
    spec_slice_selection, spec_whole_plines, BooleanOp, BooleanResult, BooleanResultPline,
};
pub use intersects::{
    PlineBasicIntersect, PlineIntersect, PlineIntersectsCollection, PlineOverlappingIntersect,
    SelfIntersectsInclude,
};
pub use polyline::{
    lemma_invert_round_trip, lemma_segment_iteration, spec_fwd_wrapping_dist,
    spec_fwd_wrapping_index, spec_involutive, spec_is_inversion, spec_next_wrapping_index,
    spec_prev_wrapping_index, spec_scalar_total, Polyline, PolylineContiguousStorage, PolylineCreation,
};
pub use redundant::{
    spec_classify_total, spec_lead_vertex, spec_redundant_answers_fit, spec_redundant_final,
    spec_redundant_forward, spec_redundant_removed, spec_redundant_run, spec_redundant_step,
    spec_wrap_step, RedundantCase,
};
pub use repeats::{
    spec_all_pairs_equal, spec_merge_run, spec_merge_step, spec_repeat_answers_fit,
    spec_repeat_removed, spec_total,
};
pub use seg_index::{
    spec_segment_count, spec_segment_pair, spec_segment_pairs, PlineSegIndexIterator,
};
pub use seg_iter::PlineSegIterator;
pub use slice::{
    lemma_entire_pline_slice, spec_create_slice, spec_single_segment_slice,
    spec_slice_from_points, spec_slice_from_points_answer, spec_slice_from_start,
    spec_slice_start_vertex, BooleanPlineSlice, OpenPlineSlice, SliceValidation,
};
pub use split::{spec_rotate_start, spec_rotated, spec_split_total, SplitResult};
pub use topology::{ClosestPointResult, PlineOrientation};
pub use vertex::{PlineVertex, Vector2, Vector2Ref, Vector2RefMut};
pub use view::{
    spec_validation_answers_fit, spec_validation_result, spec_view_fits, spec_view_vertex,
    spec_view_vertexes, PlineView, PlineViewData,
};
