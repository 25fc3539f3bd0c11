use cavalier_contours::{
    OpenPlineSlice, PlineVertex, PlineViewData, Polyline, RedundantCase, SliceValidation, Vector2,
};
use std::f64::consts::PI;

fn pline(vs: &[(f64, f64, f64)], closed: bool) -> Polyline<f64> {
    let mut p = if closed { Polyline::new_closed() } else { Polyline::new() };
    for &(x, y, b) in vs {
        p.add(x, y, b);
    }
    p
}

fn near(a: Vector2<f64>, b: Vector2<f64>) -> bool {
    (a.x - b.x).abs() < 1e-5 && (a.y - b.y).abs() < 1e-5
}

fn is_zero(b: f64) -> bool {
    b.abs() < 1e-8
}

fn arc_radius_and_center(v1: PlineVertex<f64>, v2: PlineVertex<f64>) -> (f64, Vector2<f64>) {
    let b = v1.bulge.abs();
    let (dx, dy) = (v2.x - v1.x, v2.y - v1.y);
    let d = (dx * dx + dy * dy).sqrt();
    let r = d * (b * b + 1.0) / (4.0 * b);
    let m = r - b * d / 2.0;
    let sign = if v1.bulge < 0.0 { -1.0 } else { 1.0 };
    (r, Vector2::new(v1.x + dx / 2.0 - sign * m * dy / d, v1.y + dy / 2.0 + sign * m * dx / d))
}

fn classify(v1: PlineVertex<f64>, v2: PlineVertex<f64>, v3: PlineVertex<f64>) -> RedundantCase<f64> {
    if near(v2.pos(), v3.pos()) {
        return RedundantCase::Repeat;
    }
    if is_zero(v1.bulge) && is_zero(v2.bulge) {
        let cross = v1.x * (v2.y - v3.y) + v2.x * (v3.y - v1.y) + v3.x * (v1.y - v2.y);
        let dot = (v3.x - v2.x) * (v2.x - v1.x) + (v3.y - v2.y) * (v2.y - v1.y);
        if cross.abs() < 1e-8 && dot > 0.0 {
            return RedundantCase::Collinear;
        }
        return RedundantCase::Keep;
    }
    if !is_zero(v1.bulge) && !is_zero(v2.bulge) && (v1.bulge > 0.0) == (v2.bulge > 0.0) {
        let (r1, c1) = arc_radius_and_center(v1, v2);
        let (r2, c2) = arc_radius_and_center(v2, v3);
        if (r1 - r2).abs() < 1e-8 && (c1.x - c2.x).abs() < 1e-8 && (c1.y - c2.y).abs() < 1e-8 {
            let total = 4.0 * v1.bulge.abs().atan() + 4.0 * v2.bulge.abs().atan();
            if total <= PI + 1e-9 {
                let b = (total / 4.0).tan();
                return RedundantCase::MergeArcs(if v1.bulge > 0.0 { b } else { -b });
            }
        }
    }
    RedundantCase::Keep
}

fn assert_close(p: &Polyline<f64>, expected: &[(f64, f64, f64)]) {
    assert_eq!(p.vertex_count(), expected.len());
    for (v, &(x, y, b)) in p.vertex_data.iter().zip(expected) {
        assert!((v.x - x).abs() < 1e-5 && (v.y - y).abs() < 1e-5 && (v.bulge - b).abs() < 1e-5, "{:?}", v);
    }
}

#[test]
fn remove_redundant_lines_with_repeat() {
    let p = pline(&[(2.0, 2.0, 0.0), (3.0, 3.0, 0.0), (3.0, 3.0, 0.0), (4.0, 4.0, 0.0), (2.0, 4.0, 0.0)], true);
    let r = p.remove_redundant(&near, &classify).expect("redundant vertexes were removed");
    assert!(r.is_closed());
    assert_close(&r, &[(2.0, 2.0, 0.0), (4.0, 4.0, 0.0), (2.0, 4.0, 0.0)]);
    assert!(r.remove_redundant(&near, &classify).is_none());
}

#[test]
fn remove_redundant_circle_of_five_vertexes() {
    let b = (PI / 8.0).tan();
    let p = pline(&[(-0.5, 0.0, b), (0.0, -0.5, b), (0.0, -0.5, b), (0.5, 0.0, b), (0.0, 0.5, b)], true);
    let r = p.remove_redundant(&near, &classify).expect("redundant vertexes were removed");
    assert!(r.is_closed());
    assert_close(&r, &[(-0.5, 0.0, 1.0), (0.5, 0.0, 1.0)]);
    assert!(r.remove_redundant(&near, &classify).is_none());
}

#[test]
fn remove_redundant_keeps_open_end() {
    let p = pline(&[(0.0, 0.0, 0.0), (1.0, 0.0, 0.0), (2.0, 0.0, 0.0)], false);
    let r = p.remove_redundant(&near, &classify).unwrap();
    assert!(!r.is_closed());
    assert_close(&r, &[(0.0, 0.0, 0.0), (2.0, 0.0, 0.0)]);
    let bent = pline(&[(0.0, 0.0, 0.0), (1.0, 0.0, 0.0), (1.0, 1.0, 0.0)], false);
    assert!(bent.remove_redundant(&near, &classify).is_none());
}

#[test]
fn remove_redundant_leading_repeats_and_short() {
    let p = pline(&[(0.0, 0.0, 0.0), (0.0, 0.0, 0.5), (1.0, 0.0, 0.0), (1.0, 1.0, 0.0)], false);
    let r = p.remove_redundant(&near, &classify).unwrap();
    assert_close(&r, &[(0.0, 0.0, 0.5), (1.0, 0.0, 0.0), (1.0, 1.0, 0.0)]);
    let two = pline(&[(1.0, 1.0, 0.25), (1.0, 1.0, 0.5)], true);
    assert_close(&two.remove_redundant(&near, &classify).unwrap(), &[(1.0, 1.0, 0.25)]);
    assert!(pline(&[(1.0, 1.0, 0.0), (2.0, 1.0, 0.0)], false).remove_redundant(&near, &classify).is_none());
    assert!(pline(&[(1.0, 1.0, 0.0)], true).remove_redundant(&near, &classify).is_none());
    let same = pline(&[(1.0, 1.0, 0.1), (1.0, 1.0, 0.2), (1.0, 1.0, 0.3)], false);
    assert_close(&same.remove_redundant(&near, &classify).unwrap(), &[(1.0, 1.0, 0.3)]);
}

#[test]
fn remove_redundant_first_vertex_inside_closed_line() {
    let p = pline(&[(1.0, 0.0, 0.0), (2.0, 0.0, 0.0), (2.0, 2.0, 0.0), (0.0, 2.0, 0.0), (0.0, 0.0, 0.0)], true);
    let r = p.remove_redundant(&near, &classify).unwrap();
    assert_close(&r, &[(0.0, 0.0, 0.0), (2.0, 0.0, 0.0), (2.0, 2.0, 0.0), (0.0, 2.0, 0.0)]);
}

fn on_line_segment(v1: PlineVertex<f64>, v2: PlineVertex<f64>, p: Vector2<f64>) -> bool {
    let (dx, dy) = (v2.x - v1.x, v2.y - v1.y);
    let t = (((p.x - v1.x) * dx + (p.y - v1.y) * dy) / (dx * dx + dy * dy)).clamp(0.0, 1.0);
    near(Vector2::new(v1.x + t * dx, v1.y + t * dy), p)
}

fn bulge_equal(a: f64, b: f64) -> bool {
    (a - b).abs() < 1e-5
}

#[test]
fn validate_for_source_kinds() {
    let src = pline(&[(0.0, 0.0, 0.0), (1.0, 0.0, 0.0), (1.0, 1.0, 0.0), (0.0, 1.0, 0.0)], true);
    let good = OpenPlineSlice::from_entire_pline(&src);
    let mut data = PlineViewData {
        start_index: 0,
        end_index_offset: 2,
        updated_start: PlineVertex::new(0.5, 0.0, 0.0),
        updated_end_bulge: 0.0,
        end_point: Vector2::new(0.5, 1.0),
        inverted_direction: false,
    };
    assert_eq!(data.validate_for_source(&src, &on_line_segment, &near, &bulge_equal), SliceValidation::IsValid);
    assert_eq!(good.validate_for_source(&src, &on_line_segment, &near, &bulge_equal), SliceValidation::IsValid);
    let on_vertex = PlineViewData { end_point: Vector2::new(1.0, 1.0), ..data };
    assert_eq!(
        on_vertex.validate_for_source(&src, &on_line_segment, &near, &bulge_equal),
        SliceValidation::EndPointOnFinalOffsetVertex { end_point: Vector2::new(1.0, 1.0), final_offset_vertex: src.at(2) }
    );
    data.end_index_offset = 5;
    assert_eq!(
        data.validate_for_source(&src, &on_line_segment, &near, &bulge_equal),
        SliceValidation::OffsetOutOfRange { offset: 5, source_length: 4 }
    );
    data.end_index_offset = 2;
    data.updated_start = PlineVertex::new(0.5, 0.5, 0.0);
    assert_eq!(
        data.validate_for_source(&src, &on_line_segment, &near, &bulge_equal),
        SliceValidation::UpdatedStartNotOnSegment { start_point: Vector2::new(0.5, 0.5) }
    );
    data.updated_start = PlineVertex::new(0.5, 0.0, 0.0);
    data.end_point = Vector2::new(2.0, 1.0);
    assert_eq!(
        data.validate_for_source(&src, &on_line_segment, &near, &bulge_equal),
        SliceValidation::EndPointNotOnSegment { end_point: Vector2::new(2.0, 1.0) }
    );
    let single = PlineViewData {
        start_index: 0,
        end_index_offset: 0,
        updated_start: PlineVertex::new(0.25, 0.0, 0.0),
        updated_end_bulge: 0.5,
        end_point: Vector2::new(0.75, 0.0),
        inverted_direction: false,
    };
    assert_eq!(
        single.validate_for_source(&src, &on_line_segment, &near, &bulge_equal),
        SliceValidation::UpdatedBulgeDoesNotMatch { updated_bulge: 0.5, expected: 0.0 }
    );
}
