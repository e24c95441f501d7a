//! The clock of a live plot: a timer tick either holds the picture (the plot
//! is frozen) or advances the frame number that shifts the plotted data, and
//! a button toggles between the two.

use vstd::prelude::*;

verus! {

/// Number of frames in one cycle of the animation.
pub const FRAME_PERIOD: i32 = 500;

/// The frame that follows `frame`: one more, wrapping back to 1 after
/// `FRAME_PERIOD`.
pub open spec fn next_frame(frame: int) -> int {
    if frame + 1 > FRAME_PERIOD {
        1
    } else {
        frame + 1
    }
}

/// The frame reached from `frame` after `k` advancing ticks.
pub open spec fn frame_after(frame: int, k: nat) -> int
    decreases k,
{
    if k == 0 {
        frame
    } else {
        next_frame(frame_after(frame, (k - 1) as nat))
    }
}

/// The run switch after one press of the button: 1 becomes 0, anything else 1.
pub open spec fn toggled(switch: int) -> int {
    if switch == 1 {
        0
    } else {
        1
    }
}

/// What a timer tick asks of the window.
#[derive(Clone, Copy, Debug, PartialEq, Eq, Structural)]
pub enum TickAction {
    /// The plot is frozen: redraw what is there.
    Hold,
    /// Rebuild the curves for this frame, then redraw.
    Advance(i32),
}

/// Run switch and frame counter of an animated plot. The switch is 1 while
/// the plot is frozen in its current state and 0 while it runs; the frame
/// lies in `0..=FRAME_PERIOD`, 0 only before the first advancing tick.
pub struct Animation {
    switch: i32,
    frame: i32,
}

impl Animation {
    #[verifier::type_invariant]
    spec fn inv(self) -> bool {
        &&& (self.switch == 0 || self.switch == 1)
        &&& 0 <= self.frame <= FRAME_PERIOD
    }

    /// The run switch: 1 frozen, 0 running.
    pub closed spec fn spec_switch(self) -> i32 {
        self.switch
    }

    /// The current frame number.
    pub closed spec fn spec_frame(self) -> i32 {
        self.frame
    }

    /// A frozen animation that has not drawn a frame yet.
    pub fn new() -> (a: Animation)
        ensures
            a.spec_switch() == 1,
            a.spec_frame() == 0,
    {
        Animation { switch: 1, frame: 0 }
    }

    /// The run switch: 1 frozen, 0 running.
    pub fn switch(&self) -> (r: i32)
        ensures
            r == self.spec_switch(),
            r == 0 || r == 1,
    {
        proof {
            use_type_invariant(self);
        }
        self.switch
    }

    /// The current frame number.
    pub fn frame(&self) -> (r: i32)
        ensures
            r == self.spec_frame(),
            0 <= r <= FRAME_PERIOD,
    {
        proof {
            use_type_invariant(self);
        }
        self.frame
    }

    /// Whether ticks currently hold the picture.
    pub fn is_frozen(&self) -> (r: bool)
        ensures
            r == (self.spec_switch() == 1),
    {
        self.switch == 1
    }

    /// A press of the button: flips the run switch, keeps the frame.
    pub fn press(&mut self)
        ensures
            final(self).spec_switch() == toggled(old(self).spec_switch() as int),
            final(self).spec_frame() == old(self).spec_frame(),
    {
        proof {
            use_type_invariant(&*self);
        }
        if self.switch == 1 {
            self.switch = 0;
        } else {
            self.switch = 1;
        }
    }

    /// A timer tick. Frozen, it changes nothing and asks for a redraw; running,
    /// it moves to the next frame and asks for the curves of that frame.
    pub fn tick(&mut self) -> (action: TickAction)
        ensures
            old(self).spec_switch() == 1 ==> {
                &&& action == TickAction::Hold
                &&& final(self).spec_switch() == old(self).spec_switch()
                &&& final(self).spec_frame() == old(self).spec_frame()
            },
            old(self).spec_switch() != 1 ==> {
                &&& final(self).spec_frame() == next_frame(old(self).spec_frame() as int)
                &&& action == TickAction::Advance(final(self).spec_frame())
                &&& final(self).spec_switch() == old(self).spec_switch()
                &&& 1 <= final(self).spec_frame() <= FRAME_PERIOD
            },
    {
        proof {
            use_type_invariant(&*self);
        }
        if self.switch == 1 {
            return TickAction::Hold;
        }
        let mut next = self.frame + 1;
        if next > FRAME_PERIOD {
            next = 1;
        }
        self.frame = next;
        TickAction::Advance(next)
    }
}

/// Pressing the button twice leaves the run switch as it was.
pub proof fn press_twice_restores(switch: int)
    requires
        switch == 0 || switch == 1,
    ensures
        toggled(toggled(switch)) == switch,
{
}

/// A press always changes the run switch: it freezes a running plot and
/// starts a frozen one.
pub proof fn press_flips_switch(switch: int)
    requires
        switch == 0 || switch == 1,
    ensures
        toggled(switch) != switch,
        toggled(switch) == 0 || toggled(switch) == 1,
        toggled(switch) == 1 - switch,
{
}

/// Every advancing tick shows a frame other than the one before, and the
/// frame stays within `1..=FRAME_PERIOD`.
pub proof fn advancing_changes_frame(frame: int)
    requires
        0 <= frame <= FRAME_PERIOD,
    ensures
        next_frame(frame) != frame,
        1 <= next_frame(frame) <= FRAME_PERIOD,
{
}

/// From a shown frame, `k` advancing ticks reach frame
/// `(frame - 1 + k) mod FRAME_PERIOD + 1`.
pub proof fn frame_after_closed_form(frame: int, k: nat)
    requires
        1 <= frame <= FRAME_PERIOD,
    ensures
        frame_after(frame, k) == (frame - 1 + k) % (FRAME_PERIOD as int) + 1,
    decreases k,
{
    if k > 0 {
        frame_after_closed_form(frame, (k - 1) as nat);
    }
}

/// The animation repeats: `FRAME_PERIOD` advancing ticks return to the frame
/// they started from.
pub proof fn frames_repeat(frame: int)
    requires
        1 <= frame <= FRAME_PERIOD,
    ensures
        frame_after(frame, FRAME_PERIOD as nat) == frame,
{
    frame_after_closed_form(frame, FRAME_PERIOD as nat);
}

} // verus!
