use cavalier_contours::{
    BooleanPlineSlice, OpenPlineSlice, PlineVertex, PlineViewData, Polyline, Vector2, Vector2Ref,
};

fn neg(b: f64) -> f64 {
    -b
}

fn pline(vs: &[(f64, f64, f64)], closed: bool) -> Polyline<f64> {
    let mut p = if closed { Polyline::new_closed() } else { Polyline::new() };
    for &(x, y, b) in vs {
        p.add(x, y, b);
    }
    p
}

fn ring() -> Polyline<f64> {
    pline(
        &[
            (0.0, 0.0, 0.1),
            (1.0, 0.0, 0.2),
            (2.0, 0.0, 0.3),
            (3.0, 0.0, 0.4),
            (4.0, 0.0, 0.5),
        ],
        true,
    )
}

#[test]
fn entire_closed_slice_walks_all_vertexes() {
    let src = ring();
    let slice = OpenPlineSlice::from_entire_pline(&src);
    assert_eq!(slice.start_index(), 0);
    assert_eq!(slice.end_index_offset(), 4);
    assert_eq!(slice.updated_end_bulge(), 0.5);
    assert_eq!(slice.end_point(), Vector2::new(0.0, 0.0));
    assert_eq!(slice.vertex_count(), 6);
    let vs = slice.view(&src).vertexes(&neg);
    assert_eq!(vs.len(), 6);
    assert_eq!(&vs[..5], &src.vertex_data[..]);
    assert_eq!((vs[5].x, vs[5].y), (0.0, 0.0));
}

#[test]
fn entire_open_slice_ends_at_last_vertex() {
    let src = pline(&[(0.0, 0.0, 0.1), (1.0, 0.0, 0.2), (2.0, 5.0, 0.3)], false);
    let slice = OpenPlineSlice::from_entire_pline(&src);
    assert_eq!(slice.end_index_offset(), 1);
    assert_eq!(slice.updated_end_bulge(), 0.2);
    assert_eq!(slice.end_point(), Vector2::new(2.0, 5.0));
    let vs = slice.view(&src).vertexes(&neg);
    assert_eq!(vs.len(), 3);
    assert_eq!(vs[0], src.at(0));
    assert_eq!(vs[1], src.at(1));
    assert_eq!((vs[2].x, vs[2].y), (2.0, 5.0));
}

fn wrapping_data(inverted: bool) -> PlineViewData<f64> {
    PlineViewData {
        start_index: 3,
        end_index_offset: 3,
        updated_start: PlineVertex::new(3.5, 0.0, 0.7),
        updated_end_bulge: 0.9,
        end_point: Vector2::new(1.5, 0.0),
        inverted_direction: inverted,
    }
}

#[test]
fn forward_view_wraps_past_last_vertex() {
    let src = ring();
    let view = wrapping_data(false).view(&src);
    assert_eq!(view.vertex_count(), 5);
    assert!(!view.is_closed());
    assert_eq!(view.get(0, &neg), Some(PlineVertex::new(3.5, 0.0, 0.7)));
    assert_eq!(view.get(1, &neg), Some(PlineVertex::new(4.0, 0.0, 0.5)));
    assert_eq!(view.get(2, &neg), Some(PlineVertex::new(0.0, 0.0, 0.1)));
    assert_eq!(view.get(3, &neg), Some(PlineVertex::new(1.0, 0.0, 0.9)));
    assert_eq!(view.get(4, &neg), Some(PlineVertex::new(1.5, 0.0, 0.0)));
    assert_eq!(view.get(5, &neg), None);
}

#[test]
fn inverted_view_walks_backwards_with_negated_bulges() {
    let src = ring();
    let view = wrapping_data(true).view(&src);
    assert_eq!(view.at(0, &neg), PlineVertex::new(1.5, 0.0, -0.9));
    assert_eq!(view.at(1, &neg), PlineVertex::new(1.0, 0.0, -0.1));
    assert_eq!(view.at(2, &neg), PlineVertex::new(0.0, 0.0, -0.5));
    assert_eq!(view.at(3, &neg), PlineVertex::new(4.0, 0.0, -0.7));
    assert_eq!(view.at(4, &neg), PlineVertex::new(3.5, 0.0, 0.0));
    assert_eq!(view.get(5, &neg), None);
}

#[test]
fn single_segment_view_has_two_vertexes() {
    let src = ring();
    let data = PlineViewData {
        start_index: 1,
        end_index_offset: 0,
        updated_start: PlineVertex::new(1.25, 0.0, 0.05),
        updated_end_bulge: 0.05,
        end_point: Vector2::new(1.75, 0.0),
        inverted_direction: false,
    };
    let vs = data.view(&src).vertexes(&neg);
    assert_eq!(vs, vec![PlineVertex::new(1.25, 0.0, 0.05), PlineVertex::new(1.75, 0.0, 0.0)]);
    let inv = PlineViewData { inverted_direction: true, ..data }.view(&src).vertexes(&neg);
    assert_eq!(inv, vec![PlineVertex::new(1.75, 0.0, -0.05), PlineVertex::new(1.25, 0.0, 0.0)]);
}

#[test]
fn detach_returns_data() {
    let src = ring();
    let data = wrapping_data(false);
    let back = data.view(&src).detach();
    assert_eq!(back.start_index, 3);
    assert_eq!(back.end_point, Vector2::new(1.5, 0.0));
}

#[test]
fn boolean_slice_from_open_slice() {
    let src = ring();
    let open = OpenPlineSlice::from_entire_pline(&src);
    let b = BooleanPlineSlice::from_open_pline_slice(&open, true, true);
    assert_eq!(b.start_index(), 0);
    assert_eq!(b.end_index_offset(), 4);
    assert_eq!(b.updated_start(), src.at(0));
    assert_eq!(b.updated_end_bulge(), 0.5);
    assert!(b.source_is_pline1);
    assert!(b.inverted_direction());
    assert!(!b.overlapping);
    assert_eq!(b.vertex_count(), 6);
    let vs = b.view(&src).vertexes(&neg);
    assert_eq!(vs[0], PlineVertex::new(0.0, 0.0, -0.5));
    assert_eq!(vs[5], PlineVertex::new(0.0, 0.0, 0.0));
}

#[test]
fn vertex_accessors() {
    let v = PlineVertex::new(1.0, 2.0, 0.5);
    assert_eq!(v.pos(), Vector2::new(1.0, 2.0));
    assert_eq!(v.with_bulge(-1.0), PlineVertex::new(1.0, 2.0, -1.0));
    assert_eq!(PlineVertex::from_vector2(Vector2::new(3.0, 4.0), 0.0), PlineVertex::new(3.0, 4.0, 0.0));
    assert_eq!(Vector2Ref::x(&v), 1.0);
    assert_eq!(Vector2Ref::y(&v), 2.0);
}
