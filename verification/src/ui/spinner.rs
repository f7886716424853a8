//! A bidirectional scanner animation: an active cell bounces across
//! a fixed-width bar, holding briefly at each end.

use vstd::prelude::*;

verus! {

/// What one frame of the animation does: a positive hold counts
/// down; an expired hold resumes movement in the stored direction;
/// a moving cell advances one step, and at either end the end's
/// hold begins and the direction reverses.
pub open spec fn spec_spinner_tick(s: KnightRiderSpinner) -> KnightRiderSpinner {
    if s.holding && s.hold_counter > 0 {
        KnightRiderSpinner { hold_counter: (s.hold_counter - 1) as usize, ..s }
    } else {
        let moving = KnightRiderSpinner { holding: false, ..s };
        if moving.forward {
            if moving.position >= moving.width - 1 {
                KnightRiderSpinner {
                    holding: true,
                    hold_counter: moving.hold_end_frames,
                    forward: false,
                    ..moving
                }
            } else {
                KnightRiderSpinner { position: (moving.position + 1) as usize, ..moving }
            }
        } else {
            if moving.position == 0 {
                KnightRiderSpinner {
                    holding: true,
                    hold_counter: moving.hold_start_frames,
                    forward: true,
                    ..moving
                }
            } else {
                KnightRiderSpinner { position: (moving.position - 1) as usize, ..moving }
            }
        }
    }
}

/// The animation's state.
#[derive(Debug, Clone, Copy, PartialEq, Eq, Structural)]
pub struct KnightRiderSpinner {
    /// The active cell, 0 to `width - 1`.
    pub position: usize,
    /// Whether the cell is moving right.
    pub forward: bool,
    /// The bar's width in cells; at least three.
    pub width: usize,
    /// Remaining frames of the current hold.
    pub hold_counter: usize,
    /// Whether the animation is holding at an endpoint.
    pub holding: bool,
    /// Frames to hold at the right end.
    pub hold_end_frames: usize,
    /// Frames to hold at the left end (a longer pause).
    pub hold_start_frames: usize,
}

impl KnightRiderSpinner {
    /// The position stays on the bar.
    pub open spec fn wf(self) -> bool {
        &&& self.width >= 3
        &&& self.position < self.width
    }

    /// A spinner with the default width of eight.
    pub fn new() -> (r: KnightRiderSpinner)
        ensures
            r.wf(),
            r.width == 8,
            r.position == 0,
            r.forward,
            !r.holding,
            r.hold_counter == 0,
    {
        Self::with_width(8)
    }

    /// A spinner with the given width (raised to three).
    pub fn with_width(width: usize) -> (r: KnightRiderSpinner)
        ensures
            r.wf(),
            r.width == if width >= 3 {
                width
            } else {
                3usize
            },
            r.position == 0,
            r.forward,
            !r.holding,
            r.hold_counter == 0,
            r.hold_end_frames == 9,
            r.hold_start_frames == 30,
    {
        KnightRiderSpinner {
            position: 0,
            forward: true,
            width: if width >= 3 {
                width
            } else {
                3
            },
            hold_counter: 0,
            holding: false,
            hold_end_frames: 9,
            hold_start_frames: 30,
        }
    }

    /// Advances the animation by one frame: counts a hold down,
    /// moves one cell in the current direction, and at either end
    /// starts the end's hold and reverses direction.
    pub fn tick(&mut self)
        requires
            old(self).wf(),
        ensures
            final(self).wf(),
            *final(self) == spec_spinner_tick(*old(self)),
    {
        if self.holding {
            if self.hold_counter > 0 {
                self.hold_counter = self.hold_counter - 1;
                return;
            }
            self.holding = false;
        }
        if self.forward {
            if self.position >= self.width - 1 {
                self.holding = true;
                self.hold_counter = self.hold_end_frames;
                self.forward = false;
            } else {
                self.position = self.position + 1;
            }
        } else {
            if self.position == 0 {
                self.holding = true;
                self.hold_counter = self.hold_start_frames;
                self.forward = true;
            } else {
                self.position = self.position - 1;
            }
        }
    }

    /// Resets the animation to its initial state.
    pub fn reset(&mut self)
        requires
            old(self).wf(),
        ensures
            final(self).wf(),
            final(self).position == 0,
            final(self).forward,
            final(self).hold_counter == 0,
            !final(self).holding,
            final(self).width == old(self).width,
    {
        self.position = 0;
        self.forward = true;
        self.hold_counter = 0;
        self.holding = false;
    }

    /// The distance class of each cell for rendering: zero at the
    /// active cell, counting up along the trail behind the
    /// direction of movement, and the bar's width (out of trail
    /// range) ahead of it.
    pub fn trail_distances(&self) -> (r: Vec<usize>)
        requires
            self.wf(),
        ensures
            r@.len() == self.width,
            r@[self.position as int] == 0,
    {
        let mut out: Vec<usize> = Vec::new();
        let mut i: usize = 0;
        while i < self.width
            invariant
                self.wf(),
                i <= self.width,
                out@.len() == i,
                i > self.position ==> out@[self.position as int] == 0,
            decreases self.width - i,
        {
            let d: usize = if i == self.position {
                0
            } else if self.forward {
                if i < self.position {
                    self.position - i
                } else {
                    self.width
                }
            } else {
                if i > self.position {
                    i - self.position
                } else {
                    self.width
                }
            };
            out.push(d);
            i = i + 1;
        }
        out
    }
}

} // verus!
