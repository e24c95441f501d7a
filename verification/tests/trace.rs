use plotr::trace::{redraw_plan, PenStep};

#[test]
fn points_are_joined_in_order() {
    let steps = redraw_plan(&vec![3], false);
    assert_eq!(
        steps,
        vec![
            PenStep::Color(0),
            PenStep::MoveTo(0, 0),
            PenStep::LineTo(0, 1),
            PenStep::Stroke,
            PenStep::MoveTo(0, 1),
            PenStep::LineTo(0, 2),
            PenStep::Stroke,
            PenStep::MoveTo(0, 2),
        ]
    );
}

#[test]
fn selection_follows_every_curve() {
    let steps = redraw_plan(&vec![2, 0, 1], true);
    assert_eq!(
        steps,
        vec![
            PenStep::Color(0),
            PenStep::MoveTo(0, 0),
            PenStep::LineTo(0, 1),
            PenStep::Stroke,
            PenStep::MoveTo(0, 1),
            PenStep::Selection,
            PenStep::Color(1),
            PenStep::Selection,
            PenStep::Color(2),
            PenStep::MoveTo(2, 0),
            PenStep::Selection,
        ]
    );
}

#[test]
fn no_curves_no_steps() {
    assert!(redraw_plan(&vec![], true).is_empty());
    assert!(redraw_plan(&vec![], false).is_empty());
}

#[test]
fn strokes_count_the_segments() {
    let counts = vec![499, 2, 0, 1];
    let steps = redraw_plan(&counts, true);
    let strokes = steps.iter().filter(|s| **s == PenStep::Stroke).count();
    let selections = steps.iter().filter(|s| **s == PenStep::Selection).count();
    assert_eq!(strokes, 498 + 1);
    assert_eq!(selections, 4);
}
