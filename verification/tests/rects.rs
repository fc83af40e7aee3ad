use harper_desktop::rects::quads_of;

#[test]
fn decodes_a_single_quad() {
    let rects = quads_of(&[10.0, 20.0, 30.0, 40.0]);
    assert_eq!(rects.len(), 1);
    assert_eq!(rects[0], (10.0, 20.0, 30.0, 40.0));
}

#[test]
fn decodes_multiple_quads() {
    // A lint spanning a line wrap produces one quad per visual line.
    let rects = quads_of(&[1.0, 2.0, 3.0, 4.0, 5.0, 6.0, 7.0, 8.0]);
    assert_eq!(rects.len(), 2);
    assert_eq!(rects[0], (1.0, 2.0, 3.0, 4.0));
    assert_eq!(rects[1], (5.0, 6.0, 7.0, 8.0));
}

#[test]
fn empty_input_yields_no_rects() {
    assert!(quads_of::<f64>(&[]).is_empty());
}

#[test]
fn trailing_partial_quad_is_ignored() {
    let rects = quads_of(&[1.0, 2.0, 3.0, 4.0, 9.0, 9.0]);
    assert_eq!(rects.len(), 1);
}

#[test]
fn negative_quad_coordinates_are_kept() {
    // Monitors left of the primary display produce negative X.
    let rects = quads_of(&[-2552.0, 39.0, 19.0, 19.0]);
    assert_eq!(rects[0].0, -2552.0);
}

#[test]
fn quads_group_any_values_in_order() {
    assert_eq!(quads_of(&[1, 2, 3, 4, 5, 6, 7, 8, 9]), vec![(1, 2, 3, 4), (5, 6, 7, 8)]);
    assert_eq!(quads_of(&[1, 2, 3]), Vec::new());
}
