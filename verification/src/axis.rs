//! What each axis strip draws: whether its title shows, and the tick marks
//! with their places and labels. Tick positions along the strip are
//! `slot / slots` of the length between the two margins.

use vstd::prelude::*;
use crate::layout::Side;

verus! {

/// Number of equal divisions of the axes that carry fixed numbers (top and
/// right); they have one more tick than divisions.
pub const FIXED_DIVISIONS: usize = 10;

/// Minor ticks drawn between two major ticks of the bottom axis.
pub const MINOR_TICKS: usize = 3;

/// The text written at a tick.
#[derive(Clone, Copy, Debug, PartialEq, Eq, Structural)]
pub enum TickLabel {
    /// The tick value with this index in the list of tick values.
    Value(usize),
    /// This whole number.
    Number(usize),
}

/// One major tick: at `slot` of `slots` equal divisions, with its label and
/// the number of minor ticks drawn between it and the next major tick.
#[derive(Clone, Copy, Debug, PartialEq, Eq, Structural)]
pub struct TickMark {
    pub slot: usize,
    pub slots: usize,
    pub label: TickLabel,
    pub minor_ticks: usize,
}

/// Whether the title of the axis on `side` is drawn: always, but on the top
/// axis only when the title is not empty.
pub open spec fn shows_title(side: Side, title: Seq<char>) -> bool {
    match side {
        Side::Top => title.len() > 0,
        _ => true,
    }
}

/// Number of major ticks on `side` for `value_count` tick values: the bottom
/// and left axes have one per value, the right axis eleven, the top axis
/// eleven unless its strip draws no ticks.
pub open spec fn tick_count(side: Side, value_count: nat, no_ticks: bool) -> nat {
    match side {
        Side::Bottom | Side::Left => value_count,
        Side::Right => (FIXED_DIVISIONS + 1) as nat,
        Side::Top => if no_ticks { 0 } else { (FIXED_DIVISIONS + 1) as nat },
    }
}

/// The `n`-th major tick, counted from the left or from the top. The bottom
/// axis labels the tick values in order and the left axis from the last down
/// (largest value at the top), the bottom axis also putting minor ticks
/// between each tick and the next (none after the last); the top axis
/// numbers its ticks 0 to 10 and the right axis 10 down to 0.
pub open spec fn tick_mark(side: Side, value_count: nat, n: nat) -> TickMark {
    match side {
        Side::Bottom => TickMark {
            slot: n as usize,
            slots: (value_count - 1) as usize,
            label: TickLabel::Value(n as usize),
            minor_ticks: if n + 1 == value_count {
                0
            } else {
                MINOR_TICKS
            },
        },
        Side::Left => TickMark {
            slot: n as usize,
            slots: (value_count - 1) as usize,
            label: TickLabel::Value((value_count - 1 - n) as usize),
            minor_ticks: 0,
        },
        Side::Top => TickMark {
            slot: n as usize,
            slots: FIXED_DIVISIONS,
            label: TickLabel::Number(n as usize),
            minor_ticks: 0,
        },
        Side::Right => TickMark {
            slot: n as usize,
            slots: FIXED_DIVISIONS,
            label: TickLabel::Number((FIXED_DIVISIONS - n) as usize),
            minor_ticks: 0,
        },
    }
}

/// The drawing plan of one axis strip.
pub struct AxisPlan {
    pub shows_title: bool,
    pub ticks: Vec<TickMark>,
}

/// Plan of the axis strip on `side` with `value_count` tick values, the
/// given title and the strip's no-ticks flag.
pub fn axis_plan(side: Side, value_count: usize, title: &str, no_ticks: bool) -> (p: AxisPlan)
    ensures
        p.shows_title == shows_title(side, title@),
        p.ticks@.len() == tick_count(side, value_count as nat, no_ticks),
        forall|n: int|
            0 <= n < p.ticks@.len() ==> #[trigger] p.ticks@[n] == tick_mark(
                side,
                value_count as nat,
                n as nat,
            ),
{
    let shows = match side {
        Side::Top => !title.is_empty(),
        _ => true,
    };
    let count: usize = match side {
        Side::Bottom | Side::Left => value_count,
        Side::Right => FIXED_DIVISIONS + 1,
        Side::Top => if no_ticks {
            0
        } else {
            FIXED_DIVISIONS + 1
        },
    };
    let mut ticks: Vec<TickMark> = Vec::new();
    let mut n: usize = 0;
    while n < count
        invariant
            count == tick_count(side, value_count as nat, no_ticks),
            n <= count,
            ticks@.len() == n,
            forall|k: int|
                0 <= k < n ==> #[trigger] ticks@[k] == tick_mark(side, value_count as nat, k as nat),
        decreases count - n,
    {
        let mark = match side {
            Side::Bottom => TickMark {
                slot: n,
                slots: value_count - 1,
                label: TickLabel::Value(n),
                minor_ticks: if n + 1 == value_count {
                    0
                } else {
                    MINOR_TICKS
                },
            },
            Side::Left => TickMark {
                slot: n,
                slots: value_count - 1,
                label: TickLabel::Value(value_count - 1 - n),
                minor_ticks: 0,
            },
            Side::Top => TickMark {
                slot: n,
                slots: FIXED_DIVISIONS,
                label: TickLabel::Number(n),
                minor_ticks: 0,
            },
            Side::Right => TickMark {
                slot: n,
                slots: FIXED_DIVISIONS,
                label: TickLabel::Number(FIXED_DIVISIONS - n),
                minor_ticks: 0,
            },
        };
        ticks.push(mark);
        n = n + 1;
    }
    AxisPlan { shows_title: shows, ticks }
}

/// Minor ticks are drawn on the bottom axis only.
pub proof fn minor_ticks_only_at_bottom(side: Side, value_count: nat, n: nat)
    requires
        side != Side::Bottom,
    ensures
        tick_mark(side, value_count, n).minor_ticks == 0,
{
}

/// Minor ticks lie between neighbouring major ticks: on the bottom axis each
/// tick but the last is followed by `MINOR_TICKS` of them, the last by none.
pub proof fn minor_ticks_between_major_ticks(value_count: nat, n: nat)
    requires
        n < value_count,
    ensures
        n + 1 < value_count ==> tick_mark(Side::Bottom, value_count, n).minor_ticks == MINOR_TICKS,
        n + 1 == value_count ==> tick_mark(Side::Bottom, value_count, n).minor_ticks == 0,
{
}

/// The left axis shows the same tick values as the bottom axis, in reverse
/// order: its `n`-th tick from the top carries the label of the bottom axis's
/// `(value_count - 1 - n)`-th tick from the left, and every label names one
/// of the values.
pub proof fn left_axis_reverses_bottom(value_count: nat, n: nat)
    requires
        n < value_count,
    ensures
        tick_mark(Side::Left, value_count, n).label == tick_mark(
            Side::Bottom,
            value_count,
            (value_count - 1 - n) as nat,
        ).label,
        tick_mark(Side::Left, value_count, n).label matches TickLabel::Value(i) && i < value_count,
        tick_mark(Side::Bottom, value_count, n).label matches TickLabel::Value(i) && i < value_count,
{
}

/// The right axis numbers its ticks in the reverse order of the top axis.
pub proof fn right_axis_reverses_top(n: nat)
    requires
        n <= FIXED_DIVISIONS,
    ensures
        tick_mark(Side::Right, 0, n).label == tick_mark(
            Side::Top,
            0,
            (FIXED_DIVISIONS - n) as nat,
        ).label,
{
}

/// Major ticks are evenly spaced from one end of the strip to the other: the
/// `n`-th sits at slot `n`, and the last of the ticks sits at the far end.
pub proof fn ticks_span_the_axis(side: Side, value_count: nat, no_ticks: bool, n: nat)
    requires
        n < tick_count(side, value_count, no_ticks),
        value_count <= usize::MAX,
    ensures
        tick_mark(side, value_count, n).slot == n,
        tick_mark(side, value_count, n).slot <= tick_mark(side, value_count, n).slots,
        n + 1 == tick_count(side, value_count, no_ticks) ==> tick_mark(
            side,
            value_count,
            n,
        ).slot == tick_mark(side, value_count, n).slots,
{
}

/// Every axis but the top one always shows its title, whatever the title
/// is; the top axis shows it exactly when it is not empty.
pub proof fn titles_shown(title: Seq<char>)
    ensures
        shows_title(Side::Bottom, title),
        shows_title(Side::Left, title),
        shows_title(Side::Right, title),
        shows_title(Side::Top, title) <==> title.len() != 0,
{
}

/// The bottom and left axes carry one tick per value; the right axis eleven
/// (ten divisions); the top axis eleven, or none when its strip draws no
/// ticks.
pub proof fn tick_counts(value_count: nat, no_ticks: bool)
    ensures
        tick_count(Side::Bottom, value_count, no_ticks) == value_count,
        tick_count(Side::Left, value_count, no_ticks) == value_count,
        tick_count(Side::Right, value_count, no_ticks) == 11,
        tick_count(Side::Top, value_count, no_ticks) == if no_ticks {
            0nat
        } else {
            11nat
        },
{
}

/// Read from the left, the bottom axis shows the tick values in their
/// order, each exactly once: tick `n` shows value `n`, so two ticks never
/// show the same value. Read from the left, the top axis counts 0, 1, ...,
/// 10.
pub proof fn labels_follow_position(value_count: nat, n: nat, k: nat)
    requires
        n < value_count,
        k < value_count,
        value_count <= usize::MAX,
    ensures
        tick_mark(Side::Bottom, value_count, n).label == TickLabel::Value(n as usize),
        n != k ==> tick_mark(Side::Bottom, value_count, n).label != tick_mark(
            Side::Bottom,
            value_count,
            k,
        ).label,
        n <= FIXED_DIVISIONS ==> tick_mark(Side::Top, value_count, n).label == TickLabel::Number(
            n as usize,
        ),
{
}

} // verus!
