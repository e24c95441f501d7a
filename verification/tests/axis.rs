use plotr::axis::{axis_plan, TickLabel, TickMark, FIXED_DIVISIONS, MINOR_TICKS};
use plotr::layout::Side;

#[test]
fn bottom_axis_labels_values_in_order_with_minor_ticks() {
    let p = axis_plan(Side::Bottom, 3, "This is the bottom label", false);
    assert!(p.shows_title);
    assert_eq!(
        p.ticks,
        vec![
            TickMark { slot: 0, slots: 2, label: TickLabel::Value(0), minor_ticks: MINOR_TICKS },
            TickMark { slot: 1, slots: 2, label: TickLabel::Value(1), minor_ticks: 3 },
            TickMark { slot: 2, slots: 2, label: TickLabel::Value(2), minor_ticks: 0 },
        ]
    );
}

#[test]
fn left_axis_labels_values_from_the_top_down() {
    let p = axis_plan(Side::Left, 3, "", false);
    assert!(p.shows_title);
    let labels: Vec<TickLabel> = p.ticks.iter().map(|t| t.label).collect();
    assert_eq!(labels, vec![TickLabel::Value(2), TickLabel::Value(1), TickLabel::Value(0)]);
    assert!(p.ticks.iter().all(|t| t.minor_ticks == 0 && t.slots == 2));
}

#[test]
fn value_axes_without_values_draw_no_ticks() {
    assert!(axis_plan(Side::Bottom, 0, "x", false).ticks.is_empty());
    assert!(axis_plan(Side::Left, 0, "y", false).ticks.is_empty());
}

#[test]
fn top_axis_title_only_when_not_empty() {
    assert!(axis_plan(Side::Top, 4, "My Cool Plot", false).shows_title);
    assert!(!axis_plan(Side::Top, 4, "", false).shows_title);
}

#[test]
fn top_axis_without_ticks() {
    assert!(axis_plan(Side::Top, 4, "My Cool Plot", true).ticks.is_empty());
    assert_eq!(axis_plan(Side::Right, 4, "r", true).ticks.len(), 11);
    assert_eq!(axis_plan(Side::Bottom, 4, "b", true).ticks.len(), 4);
}

#[test]
fn top_and_right_axes_number_their_ticks() {
    let top = axis_plan(Side::Top, 0, "t", false);
    let right = axis_plan(Side::Right, 0, "r", false);
    assert_eq!(top.ticks.len(), FIXED_DIVISIONS + 1);
    for n in 0..=10usize {
        assert_eq!(top.ticks[n], TickMark { slot: n, slots: 10, label: TickLabel::Number(n), minor_ticks: 0 });
        assert_eq!(right.ticks[n].label, TickLabel::Number(10 - n));
        assert_eq!(right.ticks[n].label, top.ticks[10 - n].label);
    }
}

#[test]
fn minor_ticks_only_between_major_ticks() {
    let p = axis_plan(Side::Bottom, 5, "b", false);
    let minors: Vec<usize> = p.ticks.iter().map(|t| t.minor_ticks).collect();
    assert_eq!(minors, vec![3, 3, 3, 3, 0]);
    let single = axis_plan(Side::Bottom, 1, "b", false);
    assert_eq!(single.ticks[0].minor_ticks, 0);
}
