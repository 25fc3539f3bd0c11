use cavalier_contours::{OpenPlineSlice, PlineVertex, PlineViewData, Polyline, Vector2};

fn pline(vs: &[(f64, f64, f64)], closed: bool) -> Polyline<f64> {
    let mut p = if closed { Polyline::new_closed() } else { Polyline::new() };
    for &(x, y, b) in vs {
        p.add(x, y, b);
    }
    p
}

fn neg(b: f64) -> f64 {
    -b
}

fn near(a: Vector2<f64>, b: Vector2<f64>) -> bool {
    (a.x - b.x).abs() < 1e-5 && (a.y - b.y).abs() < 1e-5
}

#[test]
fn remove_repeat_pos_closed_keeps_later_bulge() {
    let p = pline(&[(2.0, 2.0, 0.5), (2.0, 2.0, 1.0), (3.0, 3.0, 1.0), (3.0, 3.0, 0.5)], true);
    let r = p.remove_repeat_pos(&near).expect("repeat position vertexes were removed");
    assert!(r.is_closed());
    assert_eq!(r.vertex_data, vec![PlineVertex::new(2.0, 2.0, 1.0), PlineVertex::new(3.0, 3.0, 0.5)]);
}

#[test]
fn remove_repeat_pos_without_repeats_is_none() {
    let p = pline(&[(0.0, 0.0, 0.0), (1.0, 0.0, 0.0), (1.0, 1.0, 0.0)], true);
    assert!(p.remove_repeat_pos(&near).is_none());
    assert!(pline(&[(0.0, 0.0, 0.0)], true).remove_repeat_pos(&near).is_none());
    assert!(pline(&[], false).remove_repeat_pos(&near).is_none());
}

#[test]
fn remove_repeat_pos_drops_closing_repeat() {
    let p = pline(&[(0.0, 0.0, 0.0), (1.0, 0.0, 0.0), (1.0, 1.0, 0.25), (0.0, 0.000001, 0.5)], true);
    let r = p.remove_repeat_pos(&near).expect("closing vertex removed");
    assert_eq!(
        r.vertex_data,
        vec![PlineVertex::new(0.0, 0.0, 0.0), PlineVertex::new(1.0, 0.0, 0.0), PlineVertex::new(1.0, 1.0, 0.25)]
    );
    let open = pline(&[(0.0, 0.0, 0.0), (1.0, 0.0, 0.0), (0.0, 0.0, 0.0)], false);
    assert!(open.remove_repeat_pos(&near).is_none());
}

#[test]
fn remove_repeat_pos_compares_with_last_kept() {
    let p = pline(&[(0.0, 0.0, 0.1), (0.0, 0.0, 0.2), (0.0, 0.0, 0.3), (5.0, 0.0, 0.4)], false);
    let r = p.remove_repeat_pos(&near).expect("repeats removed");
    assert_eq!(r.vertex_data, vec![PlineVertex::new(0.0, 0.0, 0.3), PlineVertex::new(5.0, 0.0, 0.4)]);
    let again = r.remove_repeat_pos(&near);
    assert!(again.is_none());
}

#[test]
fn add_or_replace_vertex_merges_repeat() {
    let mut p: Polyline<f64> = Polyline::new();
    p.add_or_replace_vertex(PlineVertex::new(1.0, 1.0, 0.5), &near);
    assert_eq!(p.vertex_data, vec![PlineVertex::new(1.0, 1.0, 0.5)]);
    p.add_or_replace_vertex(PlineVertex::new(1.0, 1.0, -0.5), &near);
    assert_eq!(p.vertex_data, vec![PlineVertex::new(1.0, 1.0, -0.5)]);
    p.add_or_replace_vertex(PlineVertex::new(2.0, 1.0, 0.0), &near);
    assert_eq!(p.vertex_data, vec![PlineVertex::new(1.0, 1.0, -0.5), PlineVertex::new(2.0, 1.0, 0.0)]);
}

#[test]
fn fuzzy_eq_with_compares_each_vertex() {
    let same = |a: PlineVertex<f64>, b: PlineVertex<f64>| {
        (a.x - b.x).abs() < 1e-5 && (a.y - b.y).abs() < 1e-5 && (a.bulge - b.bulge).abs() < 1e-5
    };
    let a = pline(&[(0.0, 0.0, 1.0), (2.0, 0.0, 1.0)], true);
    let b = pline(&[(0.000001, 0.0, 1.0), (2.0, 0.0, 1.0)], true);
    let c = pline(&[(0.0, 0.0, 1.0), (2.0, 0.0, -1.0)], true);
    let d = pline(&[(0.0, 0.0, 1.0)], true);
    assert!(a.fuzzy_eq_with(&b, &same));
    assert!(!a.fuzzy_eq_with(&c, &same));
    assert!(!a.fuzzy_eq_with(&d, &same));
}

#[test]
fn create_on_single_segment_rejects_collapsed() {
    let src = pline(&[(0.0, 0.0, 0.0), (4.0, 0.0, 0.0)], false);
    let start = PlineVertex::new(1.0, 0.0, 0.0);
    assert!(OpenPlineSlice::create_on_single_segment(&src, 0, start, Vector2::new(1.0, 0.0), &near).is_none());
    let s = OpenPlineSlice::create_on_single_segment(&src, 0, start, Vector2::new(3.0, 0.0), &near)
        .expect("slice of positive length");
    assert_eq!(s.start_index(), 0);
    assert_eq!(s.end_index_offset(), 0);
    assert_eq!(s.updated_end_bulge(), 0.0);
    assert_eq!(s.end_point(), Vector2::new(3.0, 0.0));
    assert!(!s.inverted_direction());
    let p = s.to_polyline(&src, &neg, &near);
    assert_eq!(p.vertex_data, vec![start, PlineVertex::new(3.0, 0.0, 0.0)]);
}

#[test]
fn slice_to_polyline_merges_repeats() {
    let src = pline(&[(0.0, 0.0, 0.0), (1.0, 0.0, 0.0), (1.0, 1.0, 0.0), (0.0, 1.0, 0.0)], true);
    let whole = OpenPlineSlice::from_entire_pline(&src);
    let p = whole.to_polyline(&src, &neg, &near);
    assert!(!p.is_closed());
    assert_eq!(p.vertex_count(), 5);
    assert_eq!(p.at(4).pos(), Vector2::new(0.0, 0.0));
    let data = PlineViewData {
        start_index: 0,
        end_index_offset: 1,
        updated_start: PlineVertex::new(0.0, 0.0, 0.0),
        updated_end_bulge: 0.0,
        end_point: Vector2::new(1.0, 0.0),
        inverted_direction: false,
    };
    let q = data.view(&src).to_polyline(&neg, &near);
    assert_eq!(q.vertex_data, vec![PlineVertex::new(0.0, 0.0, 0.0), PlineVertex::new(1.0, 0.0, 0.0)]);
}

#[test]
fn stitch_onto_appends_after_target() {
    let src = pline(&[(0.0, 0.0, 0.0), (1.0, 0.0, 0.0), (1.0, 1.0, 0.0)], false);
    let whole = OpenPlineSlice::from_entire_pline(&src);
    let mut target = pline(&[(-1.0, 0.0, 0.5), (0.0, 0.0, 0.25)], true);
    whole.stitch_onto(&src, &mut target, &neg, &near);
    assert!(target.is_closed());
    assert_eq!(
        target.vertex_data,
        vec![
            PlineVertex::new(-1.0, 0.0, 0.5),
            PlineVertex::new(0.0, 0.0, 0.0),
            PlineVertex::new(1.0, 0.0, 0.0),
            PlineVertex::new(1.0, 1.0, 0.0),
        ]
    );
}
