//! The pen steps that redraw the plot area: each curve in its colour, its
//! points joined by straight segments, and the selection rectangle while a
//! zoom selection is being dragged.

use vstd::prelude::*;

verus! {

/// One step of the pen. Points are named by curve index and point index;
/// the caller maps them to screen coordinates.
#[derive(Clone, Copy, Debug, PartialEq, Eq, Structural)]
pub enum PenStep {
    /// Take the colour of this curve.
    Color(usize),
    /// Move to this point of this curve without drawing.
    MoveTo(usize, usize),
    /// Extend the path to this point of this curve.
    LineTo(usize, usize),
    /// Draw the path so far.
    Stroke,
    /// Outline the selection rectangle and draw it.
    Selection,
}

/// Steps for the first `m` points of curve `curve`: the pen starts at point 0,
/// then for each further point draws the segment to it and moves there.
pub open spec fn point_steps(curve: nat, m: nat) -> Seq<PenStep>
    decreases m,
{
    if m == 0 {
        Seq::empty()
    } else if m == 1 {
        seq![PenStep::MoveTo(curve as usize, 0)]
    } else {
        point_steps(curve, (m - 1) as nat) + seq![
            PenStep::LineTo(curve as usize, (m - 1) as usize),
            PenStep::Stroke,
            PenStep::MoveTo(curve as usize, (m - 1) as usize),
        ]
    }
}

/// Steps for curve `curve` with `m` points: its colour, its points, then the
/// selection rectangle if there is a selection.
pub open spec fn curve_steps(curve: nat, m: nat, selection: bool) -> Seq<PenStep> {
    seq![PenStep::Color(curve as usize)] + point_steps(curve, m) + if selection {
        seq![PenStep::Selection]
    } else {
        Seq::empty()
    }
}

/// Steps for curves with point counts `counts`, in order.
pub open spec fn redraw_steps(counts: Seq<usize>, selection: bool) -> Seq<PenStep>
    decreases counts.len(),
{
    if counts.len() == 0 {
        Seq::empty()
    } else {
        redraw_steps(counts.drop_last(), selection) + curve_steps(
            (counts.len() - 1) as nat,
            counts.last() as nat,
            selection,
        )
    }
}

/// The pen steps that redraw curves with these point counts, the selection
/// rectangle drawn after each curve while `selection` holds.
pub fn redraw_plan(point_counts: &Vec<usize>, selection: bool) -> (steps: Vec<PenStep>)
    ensures
        steps@ == redraw_steps(point_counts@, selection),
{
    let mut steps: Vec<PenStep> = Vec::new();
    let n = point_counts.len();
    let mut c: usize = 0;
    while c < n
        invariant
            n == point_counts@.len(),
            c <= n,
            steps@ == redraw_steps(point_counts@.subrange(0, c as int), selection),
        decreases n - c,
    {
        let ghost before = steps@;
        steps.push(PenStep::Color(c));
        let m = point_counts[c];
        let mut i: usize = 0;
        while i < m
            invariant
                i <= m,
                steps@ == before + seq![PenStep::Color(c)] + point_steps(c as nat, i as nat),
            decreases m - i,
        {
            if i == 0 {
                steps.push(PenStep::MoveTo(c, 0));
            } else {
                steps.push(PenStep::LineTo(c, i));
                steps.push(PenStep::Stroke);
                steps.push(PenStep::MoveTo(c, i));
            }
            i = i + 1;
        }
        if selection {
            steps.push(PenStep::Selection);
        }
        proof {
            let next = point_counts@.subrange(0, c as int + 1);
            assert(next.drop_last() =~= point_counts@.subrange(0, c as int));
            assert(steps@ =~= redraw_steps(next, selection));
        }
        c = c + 1;
    }
    assert(point_counts@.subrange(0, n as int) =~= point_counts@);
    steps
}

/// Number of `Stroke` steps in `s`.
pub open spec fn stroke_count(s: Seq<PenStep>) -> nat
    decreases s.len(),
{
    if s.len() == 0 {
        0
    } else {
        stroke_count(s.drop_last()) + if s.last() is Stroke {
            1nat
        } else {
            0nat
        }
    }
}

/// Number of `Selection` steps in `s`.
pub open spec fn selection_count(s: Seq<PenStep>) -> nat
    decreases s.len(),
{
    if s.len() == 0 {
        0
    } else {
        selection_count(s.drop_last()) + if s.last() is Selection {
            1nat
        } else {
            0nat
        }
    }
}

/// Number of segments in curves with point counts `counts`: one fewer than
/// the points of each curve that has any.
pub open spec fn segment_count(counts: Seq<usize>) -> nat
    decreases counts.len(),
{
    if counts.len() == 0 {
        0
    } else {
        segment_count(counts.drop_last()) + if counts.last() > 0 {
            (counts.last() - 1) as nat
        } else {
            0nat
        }
    }
}

proof fn counts_concat(a: Seq<PenStep>, b: Seq<PenStep>)
    ensures
        stroke_count(a + b) == stroke_count(a) + stroke_count(b),
        selection_count(a + b) == selection_count(a) + selection_count(b),
    decreases b.len(),
{
    if b.len() == 0 {
        assert(a + b =~= a);
    } else {
        counts_concat(a, b.drop_last());
        assert((a + b).drop_last() =~= a + b.drop_last());
    }
}

proof fn counts_of_short(s: Seq<PenStep>)
    requires
        s.len() <= 3,
    ensures
        stroke_count(s) == (if s.len() > 0 && s[0] is Stroke { 1nat } else { 0nat }) + (if s.len()
            > 1 && s[1] is Stroke { 1nat } else { 0nat }) + (if s.len() > 2 && s[2] is Stroke {
            1nat
        } else {
            0nat
        }),
        selection_count(s) == (if s.len() > 0 && s[0] is Selection { 1nat } else { 0nat }) + (if s.len()
            > 1 && s[1] is Selection { 1nat } else { 0nat }) + (if s.len() > 2 && s[2] is Selection {
            1nat
        } else {
            0nat
        }),
    decreases s.len(),
{
    if s.len() > 0 {
        counts_of_short(s.drop_last());
    }
}

proof fn point_steps_counts(curve: nat, m: nat)
    ensures
        selection_count(point_steps(curve, m)) == 0,
        stroke_count(point_steps(curve, m)) == if m > 0 {
            (m - 1) as nat
        } else {
            0nat
        },
    decreases m,
{
    if m == 1 {
        counts_of_short(point_steps(curve, m));
    } else if m > 1 {
        point_steps_counts(curve, (m - 1) as nat);
        let tail = seq![
            PenStep::LineTo(curve as usize, (m - 1) as usize),
            PenStep::Stroke,
            PenStep::MoveTo(curve as usize, (m - 1) as usize),
        ];
        counts_concat(point_steps(curve, (m - 1) as nat), tail);
        counts_of_short(tail);
    }
}

proof fn curve_steps_counts(curve: nat, m: nat, selection: bool)
    ensures
        selection_count(curve_steps(curve, m, selection)) == if selection {
            1nat
        } else {
            0nat
        },
        stroke_count(curve_steps(curve, m, selection)) == if m > 0 {
            (m - 1) as nat
        } else {
            0nat
        },
{
    let head = seq![PenStep::Color(curve as usize)];
    let mid = point_steps(curve, m);
    let last: Seq<PenStep> = if selection {
        seq![PenStep::Selection]
    } else {
        Seq::empty()
    };
    point_steps_counts(curve, m);
    counts_concat(head, mid);
    counts_concat(head + mid, last);
    counts_of_short(head);
    counts_of_short(last);
}

/// While a selection is dragged, its rectangle is drawn once after each
/// curve, so as many times as there are curves (and not at all without a
/// curve); without a selection it is not drawn.
pub proof fn selection_drawn_once_per_curve(counts: Seq<usize>, selection: bool)
    ensures
        selection_count(redraw_steps(counts, selection)) == if selection {
            counts.len()
        } else {
            0nat
        },
    decreases counts.len(),
{
    if counts.len() > 0 {
        selection_drawn_once_per_curve(counts.drop_last(), selection);
        curve_steps_counts((counts.len() - 1) as nat, counts.last() as nat, selection);
        counts_concat(
            redraw_steps(counts.drop_last(), selection),
            curve_steps((counts.len() - 1) as nat, counts.last() as nat, selection),
        );
    }
}

/// Every pair of neighbouring points of a curve is joined by one drawn
/// segment, and nothing else is drawn as a path: the strokes number the
/// segments of all curves.
pub proof fn one_stroke_per_segment(counts: Seq<usize>, selection: bool)
    ensures
        stroke_count(redraw_steps(counts, selection)) == segment_count(counts),
    decreases counts.len(),
{
    if counts.len() > 0 {
        one_stroke_per_segment(counts.drop_last(), selection);
        curve_steps_counts((counts.len() - 1) as nat, counts.last() as nat, selection);
        counts_concat(
            redraw_steps(counts.drop_last(), selection),
            curve_steps((counts.len() - 1) as nat, counts.last() as nat, selection),
        );
    }
}

/// A curve of `m >= 1` points is drawn by moving to point 0, then for each
/// further point `i` in order: a line to point `i`, a stroke, and a move to
/// point `i` again (a stroke forgets the pen position). So its point steps
/// number `3m - 2`, and the pen is moved to each of its points once.
pub proof fn points_joined_in_order(curve: nat, m: nat)
    requires
        m >= 1,
        curve <= usize::MAX,
        m <= usize::MAX + 1,
    ensures
        point_steps(curve, m).len() == 3 * m - 2,
        point_steps(curve, m)[0] == PenStep::MoveTo(curve as usize, 0),
        forall|i: int|
            1 <= i < m ==> {
                &&& #[trigger] point_steps(curve, m)[3 * i - 2] == PenStep::LineTo(
                    curve as usize,
                    i as usize,
                )
                &&& point_steps(curve, m)[3 * i - 1] == PenStep::Stroke
                &&& point_steps(curve, m)[3 * i] == PenStep::MoveTo(curve as usize, i as usize)
            },
    decreases m,
{
    if m > 1 {
        points_joined_in_order(curve, (m - 1) as nat);
        let prev = point_steps(curve, (m - 1) as nat);
        let s = point_steps(curve, m);
        assert forall|i: int| 1 <= i < m implies {
            &&& #[trigger] s[3 * i - 2] == PenStep::LineTo(curve as usize, i as usize)
            &&& s[3 * i - 1] == PenStep::Stroke
            &&& s[3 * i] == PenStep::MoveTo(curve as usize, i as usize)
        } by {
            if i < m - 1 {
                assert(s[3 * i - 2] == prev[3 * i - 2]);
                assert(s[3 * i - 1] == prev[3 * i - 1]);
                assert(s[3 * i] == prev[3 * i]);
            }
        }
        assert(s[0] == prev[0]);
    }
}

/// Adding a curve after the others leaves their steps as they were and
/// appends the new curve's steps: its colour (its index among the curves),
/// the steps of its points, and then, with a selection, the selection
/// rectangle as the very last step.
pub proof fn adding_a_curve_appends_its_steps(counts: Seq<usize>, m: usize, selection: bool)
    requires
        counts.len() < usize::MAX,
    ensures
        redraw_steps(counts.push(m), selection) == redraw_steps(counts, selection) + seq![
            PenStep::Color(counts.len() as usize),
        ] + point_steps(counts.len(), m as nat) + if selection {
            seq![PenStep::Selection]
        } else {
            Seq::<PenStep>::empty()
        },
        selection ==> redraw_steps(counts.push(m), selection).last() == PenStep::Selection,
        redraw_steps(counts.push(m), selection)[redraw_steps(counts, selection).len() as int]
            == PenStep::Color(counts.len() as usize),
{
    assert(counts.push(m).drop_last() =~= counts);
    let a = redraw_steps(counts, selection);
    let b = seq![PenStep::Color(counts.len() as usize)];
    let c = point_steps(counts.len(), m as nat);
    let d: Seq<PenStep> = if selection {
        seq![PenStep::Selection]
    } else {
        Seq::empty()
    };
    assert(a + (b + c + d) =~= a + b + c + d);
    assert((a + b + c + d)[a.len() as int] == b[0]);
}

/// With no curves nothing is drawn, not even the selection rectangle.
pub proof fn no_curves_no_steps(selection: bool)
    ensures
        redraw_steps(Seq::empty(), selection) == Seq::<PenStep>::empty(),
{
}

} // verus!
