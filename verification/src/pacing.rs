//! How often the main loop does its periodic work.
//!
//! The loop itself runs as fast as it can. The oscillators are moved every
//! ten microseconds, and the display is looked at every ten milliseconds
//! and written only where it changed.

use vstd::prelude::*;
use crate::clock::Time;
use crate::max6958::{Segs, Segs4};
use crate::state::State;

verus! {

/// Clock counts between two moves of the oscillators: ten microseconds.
pub const TIME_UPDATE_PERIOD: i64 = 6_000;

/// Clock counts between two looks at the display: ten milliseconds.
pub const DISPLAY_PERIOD: i64 = 6_000_000;

/// When the periodic work was last done.
#[derive(Clone, Copy, Debug, PartialEq, Eq)]
pub struct Pacer {
    /// When the oscillators were last moved.
    pub last_time_update: Time,
    /// When the display was last looked at.
    pub last_display_update: Time,
    /// What the display was last told to show.
    pub last_segs: Segs4,
}

/// Whether two displays show the same.
pub fn same_segs(a: &Segs4, b: &Segs4) -> (same: bool)
    ensures
        same == (a.0@ == b.0@),
{
    let same = a.0[0] == b.0[0] && a.0[1] == b.0[1] && a.0[2] == b.0[2] && a.0[3] == b.0[3] && a.0[4] == b.0[4];
    proof {
        if same {
            assert(a.0@ =~= b.0@);
        }
    }
    same
}

impl Pacer {
    pub open spec fn wf(self) -> bool {
        self.last_time_update.in_range() && self.last_display_update.in_range()
    }

    /// A pacer that has done all its work at `start` and shown a dark
    /// display.
    pub fn new(start: Time) -> (pacer: Pacer)
        requires
            start.in_range(),
        ensures
            pacer.wf(),
            pacer.last_time_update == start,
            pacer.last_display_update == start,
            pacer.last_segs.0@ == seq![0u8, 0u8, 0u8, 0u8, 0u8],
    {
        Pacer { last_time_update: start, last_display_update: start, last_segs: Segs::<5>::new() }
    }

    /// Whether the oscillators are to be moved at `now`: whether ten
    /// microseconds have passed since they last were. If so, `now` is when
    /// they last were.
    pub fn time_update_due(&mut self, now: Time) -> (due: bool)
        requires
            old(self).wf(),
            now.in_range(),
        ensures
            due == (now.count - old(self).last_time_update.count >= TIME_UPDATE_PERIOD),
            *final(self) == (Pacer {
                last_time_update: if due {
                    now
                } else {
                    old(self).last_time_update
                },
                ..*old(self)
            }),
            final(self).wf(),
    {
        if now.count - self.last_time_update.count >= TIME_UPDATE_PERIOD {
            self.last_time_update = now;
            true
        } else {
            false
        }
    }

    /// What to write to the display at `now`, if anything: once ten
    /// milliseconds have passed since the display was last looked at, what
    /// the state shows, if that differs from what was written last.
    pub fn display_due(&mut self, now: Time, state: &State) -> (segs: Option<Segs4>)
        requires
            old(self).wf(),
            now.in_range(),
            state.wf(),
        ensures
            final(self).wf(),
            final(self).last_time_update == old(self).last_time_update,
            now.count - old(self).last_display_update.count < DISPLAY_PERIOD ==> segs is None && *final(self)
                == *old(self),
            now.count - old(self).last_display_update.count >= DISPLAY_PERIOD ==> {
                &&& final(self).last_display_update == now
                &&& final(self).last_segs.0@ == state.spec_to_display()
                &&& segs is Some <==> old(self).last_segs.0@ != state.spec_to_display()
                &&& segs matches Some(s) ==> s.0@ == state.spec_to_display()
            },
    {
        if now.count - self.last_display_update.count >= DISPLAY_PERIOD {
            self.last_display_update = now;
            let segs = state.to_display();
            if !same_segs(&segs, &self.last_segs) {
                self.last_segs = segs;
                return Some(segs);
            }
        }
        None
    }
}

} // verus!
