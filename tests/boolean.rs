use cavalier_contours::{
    boolean_of_disjoint, keep_overlapping_slice, slice_selection, BooleanOp, BooleanResult,
    BooleanResultPline, PlineBasicIntersect, PlineIntersect, PlineIntersectsCollection,
    PlineOverlappingIntersect, Polyline, Vector2,
};

fn pline(vs: &[(f64, f64, f64)], closed: bool) -> Polyline<f64> {
    let mut p = if closed { Polyline::new_closed() } else { Polyline::new() };
    for &(x, y, b) in vs {
        p.add(x, y, b);
    }
    p
}

fn rectangle() -> Polyline<f64> {
    pline(&[(-1.0, -2.0, 0.0), (3.0, -2.0, 0.0), (3.0, 2.0, 0.0), (-1.0, 2.0, 0.0)], true)
}

fn circle() -> Polyline<f64> {
    pline(&[(0.0, 0.0, 1.0), (2.0, 0.0, 1.0)], true)
}

fn far_circle() -> Polyline<f64> {
    pline(&[(10.0, 0.0, 1.0), (12.0, 0.0, 1.0)], true)
}

fn plines(r: &[BooleanResultPline<f64>]) -> Vec<Vec<(f64, f64, f64)>> {
    r.iter()
        .map(|p| {
            assert!(p.subslices.is_empty());
            p.pline.vertex_data.iter().map(|v| (v.x, v.y, v.bulge)).collect()
        })
        .collect()
}

fn shape(p: &Polyline<f64>) -> Vec<(f64, f64, f64)> {
    p.vertex_data.iter().map(|v| (v.x, v.y, v.bulge)).collect()
}

#[test]
fn rectangle_not_contained_circle() {
    let r = boolean_of_disjoint(rectangle(), circle(), false, true, BooleanOp::Not);
    assert_eq!(plines(&r.pos_plines), vec![shape(&rectangle())]);
    assert_eq!(plines(&r.neg_plines), vec![shape(&circle())]);
}

#[test]
fn disjoint_union_and_intersection() {
    let r = boolean_of_disjoint(rectangle(), far_circle(), false, false, BooleanOp::Or);
    assert_eq!(plines(&r.pos_plines), vec![shape(&rectangle()), shape(&far_circle())]);
    assert!(r.neg_plines.is_empty());
    let r = boolean_of_disjoint(rectangle(), far_circle(), false, false, BooleanOp::And);
    assert!(r.pos_plines.is_empty() && r.neg_plines.is_empty());
    let r = boolean_of_disjoint(rectangle(), far_circle(), false, false, BooleanOp::Not);
    assert_eq!(plines(&r.pos_plines), vec![shape(&rectangle())]);
    assert!(r.neg_plines.is_empty());
    let r = boolean_of_disjoint(rectangle(), far_circle(), false, false, BooleanOp::Xor);
    assert_eq!(plines(&r.pos_plines), vec![shape(&rectangle()), shape(&far_circle())]);
    assert!(r.neg_plines.is_empty());
}

#[test]
fn contained_first_polyline() {
    let r = boolean_of_disjoint(circle(), rectangle(), true, false, BooleanOp::Or);
    assert_eq!(plines(&r.pos_plines), vec![shape(&rectangle())]);
    let r = boolean_of_disjoint(circle(), rectangle(), true, false, BooleanOp::And);
    assert_eq!(plines(&r.pos_plines), vec![shape(&circle())]);
    let r = boolean_of_disjoint(circle(), rectangle(), true, false, BooleanOp::Not);
    assert!(r.pos_plines.is_empty() && r.neg_plines.is_empty());
    let r = boolean_of_disjoint(circle(), rectangle(), true, false, BooleanOp::Xor);
    assert_eq!(plines(&r.pos_plines), vec![shape(&rectangle())]);
    assert_eq!(plines(&r.neg_plines), vec![shape(&circle())]);
}

#[test]
fn contained_second_polyline() {
    let r = boolean_of_disjoint(rectangle(), circle(), false, true, BooleanOp::Or);
    assert_eq!(plines(&r.pos_plines), vec![shape(&rectangle())]);
    let r = boolean_of_disjoint(rectangle(), circle(), false, true, BooleanOp::And);
    assert_eq!(plines(&r.pos_plines), vec![shape(&circle())]);
    let r = boolean_of_disjoint(rectangle(), circle(), false, true, BooleanOp::Xor);
    assert_eq!(plines(&r.pos_plines), vec![shape(&rectangle())]);
    assert_eq!(plines(&r.neg_plines), vec![shape(&circle())]);
}

#[test]
fn selection_table() {
    assert_eq!(slice_selection(BooleanOp::Or, true, false), Some(false));
    assert_eq!(slice_selection(BooleanOp::Or, false, true), None);
    assert_eq!(slice_selection(BooleanOp::And, true, true), Some(false));
    assert_eq!(slice_selection(BooleanOp::And, false, false), None);
    assert_eq!(slice_selection(BooleanOp::Not, true, false), Some(false));
    assert_eq!(slice_selection(BooleanOp::Not, true, true), None);
    assert_eq!(slice_selection(BooleanOp::Not, false, true), Some(true));
    assert_eq!(slice_selection(BooleanOp::Not, false, false), None);
    assert_eq!(slice_selection(BooleanOp::Xor, true, false), Some(false));
    assert_eq!(slice_selection(BooleanOp::Xor, false, true), Some(true));
    assert!(keep_overlapping_slice(BooleanOp::Or, true));
    assert!(!keep_overlapping_slice(BooleanOp::And, false));
    assert!(keep_overlapping_slice(BooleanOp::Not, false));
    assert!(!keep_overlapping_slice(BooleanOp::Not, true));
    assert!(!keep_overlapping_slice(BooleanOp::Xor, true));
}

#[test]
fn whole_plines_keep_order() {
    let r = BooleanResult::from_whole_plines(vec![circle(), rectangle()], vec![far_circle()]);
    assert_eq!(plines(&r.pos_plines), vec![shape(&circle()), shape(&rectangle())]);
    assert_eq!(plines(&r.neg_plines), vec![shape(&far_circle())]);
    let e: BooleanResult<f64> = BooleanResult::empty();
    assert!(e.pos_plines.is_empty() && e.neg_plines.is_empty());
    let one = BooleanResultPline::new(circle(), Vec::new());
    let r = BooleanResult::new(vec![one], Vec::new());
    assert_eq!(r.pos_plines.len(), 1);
}

#[test]
fn intersect_constructors() {
    let b = PlineBasicIntersect::new(1, 2, Vector2::new(0.5, 0.5));
    assert_eq!((b.start_index1, b.start_index2, b.point), (1, 2, Vector2::new(0.5, 0.5)));
    let o = PlineOverlappingIntersect::new(3, 4, Vector2::new(0.0, 0.0), Vector2::new(1.0, 0.0));
    assert_eq!((o.start_index1, o.start_index2), (3, 4));
    assert_eq!((o.point1, o.point2), (Vector2::new(0.0, 0.0), Vector2::new(1.0, 0.0)));
    match PlineIntersect::new_basic(5, 6, Vector2::new(2.0, 3.0)) {
        PlineIntersect::Basic(i) => assert_eq!((i.start_index1, i.start_index2), (5, 6)),
        PlineIntersect::Overlapping(_) => panic!("expected a basic intersect"),
    }
    match PlineIntersect::new_overlapping(7, 8, Vector2::new(0.0, 1.0), Vector2::new(0.0, 2.0)) {
        PlineIntersect::Overlapping(i) => assert_eq!(i.point2, Vector2::new(0.0, 2.0)),
        PlineIntersect::Basic(_) => panic!("expected an overlapping intersect"),
    }
    let c = PlineIntersectsCollection::new(vec![b], vec![o]);
    assert_eq!((c.basic_intersects.len(), c.overlapping_intersects.len()), (1, 1));
    let e: PlineIntersectsCollection<f64> = PlineIntersectsCollection::new_empty();
    assert!(e.basic_intersects.is_empty() && e.overlapping_intersects.is_empty());
}
