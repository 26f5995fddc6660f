//! The passing of time between ticks: the display falls back to the
//! running playhead, and the oscillators follow the phase of their tracks.

use vstd::prelude::*;
use vstd::array::spec_array_update;
use crate::clock::Time;
use crate::lfo::Waves;
use crate::playhead::{phase, spec_phase};
use crate::state::{InputMode, State};

verus! {

/// Time after which the display returns to the running playhead.
pub open spec fn spec_idle_timeout() -> int {
    3_000_000_000
}

impl State {
    /// Time since the last tick, zero if `now` lies before it.
    pub open spec fn spec_lapsed(self, now: Time) -> int {
        if now.count >= self.last.count {
            now.count - self.last.count
        } else {
            0
        }
    }

    /// The phase of track `i` at `now`.
    pub open spec fn spec_track_phase(self, now: Time, i: int) -> u32 {
        spec_phase(
            self.track_playhead[i],
            self.track_per_tick[i],
            self.spec_lapsed(now),
            self.predicted.count as int,
        )
    }

    /// The state after time has passed to `now`.
    ///
    /// The display returns to the running playhead once five seconds have
    /// passed since the last action. Every oscillator moves to the phase of
    /// its track.
    pub open spec fn spec_update_time(self, now: Time, waves: [Waves; 4]) -> State {
        let input_mode = if self.input_mode != InputMode::Run && now.count - self.last_action.count
            > spec_idle_timeout() {
            InputMode::Run
        } else {
            self.input_mode
        };
        let l = self.lfo;
        let l = spec_array_update(l, 0, self.lfo[0].spec_set_offset(self.spec_track_phase(now, 0), waves[0]));
        let l = spec_array_update(l, 1, self.lfo[1].spec_set_offset(self.spec_track_phase(now, 1), waves[1]));
        let l = spec_array_update(l, 2, self.lfo[2].spec_set_offset(self.spec_track_phase(now, 2), waves[2]));
        let l = spec_array_update(l, 3, self.lfo[3].spec_set_offset(self.spec_track_phase(now, 3), waves[3]));
        State { input_mode, lfo: l, ..self }
    }

    /// The phases of the four tracks at `now`.
    pub fn track_offset(&self, now: Time) -> (offs: [u32; 4])
        requires
            self.wf(),
            now.in_range(),
        ensures
            forall|i: int| 0 <= i < 4 ==> (#[trigger] offs[i]) == self.spec_track_phase(now, i),
    {
        let lapsed: u64 = if now.count >= self.last.count {
            (now.count - self.last.count) as u64
        } else {
            0
        };
        let predicted: i64 = self.predicted.count;
        let mut offs: [u32; 4] = [0u32; 4];
        let mut i: usize = 0;
        while i < 4
            invariant
                0 <= i <= 4,
                self.wf(),
                lapsed == self.spec_lapsed(now),
                predicted == self.predicted.count,
                forall|j: int| 0 <= j < i ==> (#[trigger] offs[j]) == self.spec_track_phase(now, j),
            decreases 4 - i,
        {
            offs[i] = phase(self.track_playhead[i], self.track_per_tick[i], lapsed, predicted);
            i += 1;
        }
        offs
    }

    /// Lets time pass to `now`: see [`State::spec_update_time`]. `waves`
    /// holds, for each track, sine and triangle at the track's phase at
    /// `now` (see [`State::track_offset`]).
    pub fn update_time(&mut self, now: Time, waves: &[Waves; 4])
        requires
            old(self).wf(),
            now.in_range(),
        ensures
            *final(self) == old(self).spec_update_time(now, *waves),
            final(self).wf(),
    {
        broadcast use vstd::array::group_array_axioms;

        if self.input_mode != InputMode::Run && now.count - self.last_action.count > 3_000_000_000 {
            self.input_mode = InputMode::Run;
        }
        let offset = self.track_offset(now);
        let mut i: usize = 0;
        while i < 4
            invariant
                0 <= i <= 4,
                self.wf(),
                forall|j: int| 0 <= j < 4 ==> (#[trigger] offset[j]) == old(self).spec_track_phase(now, j),
                forall|j: int|
                    0 <= j < i ==> (#[trigger] self.lfo[j]) == old(self).lfo[j].spec_set_offset(
                        offset[j],
                        waves[j],
                    ),
                forall|j: int| i <= j < 4 ==> (#[trigger] self.lfo[j]) == old(self).lfo[j],
                *self == (State {
                    lfo: self.lfo,
                    input_mode: old(self).spec_update_time(now, *waves).input_mode,
                    ..*old(self)
                }),
            decreases 4 - i,
        {
            let mut lfo = self.lfo[i];
            lfo.set_offset(offset[i], waves[i]);
            self.lfo[i] = lfo;
            i += 1;
        }
        proof {
            let st = old(self).spec_update_time(now, *waves);
            assert(self.lfo =~= st.lfo);
            assert(*self =~= st);
        }
    }
}

} // verus!
