//! The sequencer state machine.
//!
//! Operations decoded from the inputs evolve the pattern parameters, the
//! playheads and the display mode. Whatever an operation needs from outside
//! this library (the tempo predictor's answer to a clock tick, random draws
//! for a re-randomization) travels beside it in a [`Reply`].

use vstd::prelude::*;
use vstd::array::{spec_array_fill_for_copy_type, spec_array_update};
use crate::clock::Time;
use crate::fate::{fate_seed, fate_track, lemma_fate_track_wf, spec_fate_seed, spec_fate_track};
use crate::lfo::{Lfo, Waves};
use crate::params::{
    law_steps_wrap_shrink, length_edit, offset_edit, seed_edit, spec_length_edit, spec_offset_edit, spec_seed_edit,
    spec_steps_edit, steps_edit, Params, LENGTH_MAX, LENGTH_MIN, SEED_BASE, SEED_MAX,
};
use crate::playhead::{spec_min, spec_per_tick, spec_track_playhead, track_playhead_of};
use crate::queue::{clear_opers, oper_slice, queued, OperQueue};

verus! {

/// Number of tracks.
pub const TRACK_COUNT: usize = 4;

/// What the display shows and what the knobs edit.
#[derive(Clone, Copy, Debug, PartialEq, Eq, Structural)]
pub enum InputMode {
    /// The running playhead. The mode returned to after a while without
    /// input.
    Run,
    /// The seed, 0 to 9999.
    Seed,
    /// Waiting for a turn of the seed knob to re-randomize everything.
    Fate,
    /// The pattern length.
    Length,
    /// The offset of a track.
    Offset(usize),
    /// The waveform of a track's oscillator.
    Lfo(usize),
    /// Steps and length of a track.
    Steps(usize),
    /// The sync policy of a track.
    TrackSync(usize),
}

impl InputMode {
    /// The mode names an existing track, if it names one.
    pub open spec fn wf(self) -> bool {
        match self {
            InputMode::Offset(tr) => tr < 4,
            InputMode::Lfo(tr) => tr < 4,
            InputMode::Steps(tr) => tr < 4,
            InputMode::TrackSync(tr) => tr < 4,
            _ => true,
        }
    }
}

/// How a track's playhead follows the clock.
#[derive(Clone, Copy, Debug, PartialEq, Eq, Structural)]
pub enum TrackSync {
    /// Restarts with the pattern and on reset.
    Sync,
    /// Restarts on reset only.
    Free,
    /// Never restarts.
    Loop,
}

impl TrackSync {
    /// Number of policies.
    pub fn len() -> (n: usize)
        ensures
            n == 3,
    {
        3
    }

    /// Position of the policy in the cycle of policies.
    pub open spec fn spec_index(self) -> int {
        match self {
            TrackSync::Sync => 0,
            TrackSync::Free => 1,
            TrackSync::Loop => 2,
        }
    }

    /// The policy at position `n` of the cycle, wrapping around in both
    /// directions.
    pub open spec fn spec_from(n: int) -> TrackSync {
        let k = n % 3;
        if k == 0 {
            TrackSync::Sync
        } else if k == 1 {
            TrackSync::Free
        } else {
            TrackSync::Loop
        }
    }

    /// Position of the policy in the cycle of policies.
    pub fn index(&self) -> (n: u8)
        ensures
            n == self.spec_index(),
            n < 3,
    {
        match self {
            TrackSync::Sync => 0,
            TrackSync::Free => 1,
            TrackSync::Loop => 2,
        }
    }

    /// The policy at position `x` of the cycle, wrapping around in both
    /// directions.
    pub fn from(x: i8) -> (s: TrackSync)
        ensures
            s == TrackSync::spec_from(x as int),
    {
        TrackSync::wrap(x as i16)
    }

    /// The policy at position `x` of the cycle, wrapping around in both
    /// directions.
    pub fn wrap(x: i16) -> (s: TrackSync)
        ensures
            s == TrackSync::spec_from(x as int),
    {
        let r: i16 = x % 3;
        let k: i16 = if r < 0 {
            r + 3
        } else {
            r
        };
        if k == 0 {
            TrackSync::Sync
        } else if k == 1 {
            TrackSync::Free
        } else {
            TrackSync::Loop
        }
    }
}

/// The operations that change the state.
#[derive(Clone, Copy, Debug, PartialEq, Eq, Structural)]
pub enum Oper {
    /// A clock pulse, with the interval since the pulse before it.
    Tick(Time),
    Reset,
    Seed(i8),
    SeedClick,
    Length(i8),
    LengthClick,
    Offset(usize, i8),
    OffsetClick(usize),
    Steps(usize, i8),
    StepsClick(usize),
}

impl Oper {
    /// The operation names an existing track, if it names one.
    pub open spec fn wf(self) -> bool {
        match self {
            Oper::Offset(tr, _) => tr < 4,
            Oper::OffsetClick(tr) => tr < 4,
            Oper::Steps(tr, _) => tr < 4,
            Oper::StepsClick(tr) => tr < 4,
            _ => true,
        }
    }

    /// Executable form of [`Oper::wf`].
    pub fn is_valid(&self) -> (b: bool)
        ensures
            b == self.wf(),
    {
        match self {
            Oper::Offset(tr, _) => *tr < 4,
            Oper::OffsetClick(tr) => *tr < 4,
            Oper::Steps(tr, _) => *tr < 4,
            Oper::StepsClick(tr) => *tr < 4,
            _ => true,
        }
    }
}

/// Every operation of a batch names an existing track, if it names one.
pub open spec fn spec_all_wf(q: Seq<Oper>) -> bool {
    forall|i: int| 0 <= i < q.len() ==> (#[trigger] q[i]).wf()
}

/// How many of the operations of a batch are clock ticks.
pub open spec fn spec_ticks(q: Seq<Oper>) -> nat
    decreases q.len(),
{
    if q.len() == 0 {
        0
    } else {
        spec_ticks(q.drop_last()) + if q.last() is Tick {
            1nat
        } else {
            0nat
        }
    }
}

/// The beginning of a batch holds at most as many ticks as the batch.
pub proof fn lemma_ticks_prefix(q: Seq<Oper>, n: int)
    requires
        0 <= n <= q.len(),
    ensures
        spec_ticks(q.take(n)) <= spec_ticks(q),
    decreases q.len(),
{
    if n == q.len() {
        assert(q.take(n) =~= q);
    } else {
        assert(q.drop_last().take(n) =~= q.take(n));
        lemma_ticks_prefix(q.drop_last(), n);
    }
}

/// What came back from outside for one operation.
#[derive(Clone, Copy, Debug, PartialEq, Eq)]
pub struct Reply {
    /// The tempo predictor's answer to the interval of a `Tick`: the time
    /// until the next tick. Read for a `Tick` only.
    pub predicted: Time,
    /// Random draws, read only for a `Seed` that re-randomizes.
    pub draws: [u32; 25],
}

impl Reply {
    /// A reply to an operation that reads none: all of it is zero.
    pub fn none() -> (r: Reply)
        ensures
            r == Reply::spec_none(),
            r.predicted.count == 0,
            r.predicted.is_interval(),
            forall|i: int| 0 <= i < 25 ==> #[trigger] r.draws[i] == 0,
    {
        broadcast use vstd::array::group_array_axioms;

        Reply { predicted: Time { count: 0 }, draws: [0u32; 25] }
    }

    /// The reply to a `Tick`: the predicted interval, and all draws zero.
    pub fn predicted(predicted: Time) -> (r: Reply)
        ensures
            r == (Reply { predicted, ..Reply::spec_none() }),
            r.predicted == predicted,
    {
        Reply { predicted, draws: [0u32; 25] }
    }

    /// The reply to a `Seed`.
    pub fn draws(draws: [u32; 25]) -> (r: Reply)
        ensures
            r.predicted.count == 0,
            r.predicted.is_interval(),
            r.draws == draws,
    {
        Reply { predicted: Time { count: 0 }, draws }
    }

    /// The reply that holds nothing: a predicted interval of zero and 25
    /// draws of zero.
    pub open spec fn spec_none() -> Reply {
        Reply { predicted: Time { count: 0 }, draws: spec_array_fill_for_copy_type(0u32) }
    }
}

/// What the operations of one batch have asked for so far.
#[derive(Clone, Copy, Debug, PartialEq, Eq, Structural)]
pub struct Pending {
    /// The display mode to switch to when the batch ends.
    pub input_mode: Option<InputMode>,
    /// The patterns have to be generated anew.
    pub regenerate: bool,
}

impl Pending {
    pub open spec fn wf(self) -> bool {
        self.input_mode matches Some(m) ==> m.wf()
    }

    pub open spec fn spec_nothing() -> Pending {
        Pending { input_mode: None, regenerate: false }
    }

    /// Nothing asked for.
    pub fn nothing() -> (p: Pending)
        ensures
            p == Pending::spec_nothing(),
    {
        Pending { input_mode: None, regenerate: false }
    }
}

/// The state of the instrument.
#[verifier::ext_equal]
#[derive(Clone, Copy, Debug, PartialEq, Eq)]
pub struct State {
    /// Current display mode.
    pub input_mode: InputMode,
    /// When the user last did something.
    pub last_action: Time,
    pub params: Params,
    /// The generated patterns, one row of steps per track.
    pub patterns: [[u8; 64]; 4],
    pub lfo: [Lfo; 4],
    pub track_sync: [TrackSync; 4],
    /// Muted tracks keep their gates as they are.
    pub mute: [bool; 4],
    /// Ticks since the last reset.
    pub playhead: u64,
    /// Ticks since the start. Never resets.
    pub tick_count: u64,
    /// Playhead of each track.
    pub track_playhead: [usize; 4],
    /// Phase that one tick advances on each track.
    pub track_per_tick: [u64; 4],
    /// The next tick restarts the playhead.
    pub next_is_reset: bool,
    /// Time of the last tick.
    pub last: Time,
    /// Predicted interval to the next tick.
    pub predicted: Time,
}

impl State {
    pub open spec fn wf(self) -> bool {
        &&& self.input_mode.wf()
        &&& self.params.wf()
        &&& forall|i: int| 0 <= i < 4 ==> (#[trigger] self.lfo[i]).wf()
        &&& forall|i: int| 0 <= i < 4 ==> (#[trigger] self.track_playhead[i]) < 64
        &&& forall|i: int| 0 <= i < 4 ==> (#[trigger] self.track_per_tick[i]) <= u32::MAX
        &&& self.playhead <= self.tick_count
        &&& self.last_action.in_range()
        &&& self.last.in_range()
        &&& self.predicted.is_interval()
    }

    /// The playhead within the pattern.
    pub open spec fn spec_playhead(self) -> usize {
        (self.playhead as int % self.params.pattern_length as int) as usize
    }

    /// The playheads of the four tracks for a playhead and a tick count.
    pub open spec fn spec_track_playheads(self, playhead: u64, tick_count: u64) -> [usize; 4] {
        let p = self.params;
        let a = self.track_playhead;
        let a = spec_array_update(a, 0, spec_track_playhead(self.track_sync[0], playhead, tick_count, p.pattern_length, p.tracks[0].length));
        let a = spec_array_update(a, 1, spec_track_playhead(self.track_sync[1], playhead, tick_count, p.pattern_length, p.tracks[1].length));
        let a = spec_array_update(a, 2, spec_track_playhead(self.track_sync[2], playhead, tick_count, p.pattern_length, p.tracks[2].length));
        spec_array_update(a, 3, spec_track_playhead(self.track_sync[3], playhead, tick_count, p.pattern_length, p.tracks[3].length))
    }

    /// The state after a clock tick at `now`.
    ///
    /// The tick count grows by one. The playhead grows by one, or restarts
    /// at zero if a reset came since the tick before. Every track's playhead
    /// follows by its sync policy.
    pub open spec fn spec_tick(self, now: Time, predicted: Time) -> State {
        let playhead = if self.next_is_reset {
            0u64
        } else {
            (self.playhead + 1) as u64
        };
        let tick_count = (self.tick_count + 1) as u64;
        State {
            last: now,
            predicted,
            tick_count,
            playhead,
            next_is_reset: false,
            track_playhead: self.spec_track_playheads(playhead, tick_count),
            ..self
        }
    }

    /// The parameters after a re-randomization from 25 draws. The pattern
    /// length stays.
    pub open spec fn spec_fate_params(self, d: Seq<u32>) -> Params {
        let t = self.params.tracks;
        let t = spec_array_update(t, 0, spec_fate_track(d, 0));
        let t = spec_array_update(t, 1, spec_fate_track(d, 6));
        let t = spec_array_update(t, 2, spec_fate_track(d, 12));
        let t = spec_array_update(t, 3, spec_fate_track(d, 18));
        Params { seed: spec_fate_seed(d[24]), tracks: t, ..self.params }
    }

    /// The state and the batch's requests after one operation.
    ///
    /// The display mode that decides what a knob edits is the one the batch
    /// started with: a mode that an operation of the batch asks for is taken
    /// up when the batch ends.
    pub open spec fn spec_apply(self, pending: Pending, now: Time, oper: Oper, reply: Reply) -> (
        State,
        Pending,
    ) {
        match oper {
            Oper::Tick(_) => (self.spec_tick(now, reply.predicted), pending),
            Oper::Reset => (State { next_is_reset: true, ..self }, pending),
            Oper::Seed(x) => {
                if self.input_mode == InputMode::Fate {
                    (
                        State { params: self.spec_fate_params(reply.draws@), next_is_reset: true, ..self },
                        Pending { regenerate: true, ..pending },
                    )
                } else {
                    match spec_seed_edit(self.params.seed, x) {
                        Some(seed) => (
                            State { params: Params { seed, ..self.params }, ..self },
                            Pending { input_mode: Some(InputMode::Seed), regenerate: true },
                        ),
                        None => (self, pending),
                    }
                }
            },
            Oper::SeedClick => {
                if self.input_mode == InputMode::Fate {
                    (self, Pending { input_mode: Some(InputMode::Seed), ..pending })
                } else {
                    (self, Pending { input_mode: Some(InputMode::Fate), ..pending })
                }
            },
            Oper::Length(x) => {
                match spec_length_edit(self.params.pattern_length, x) {
                    Some(pattern_length) => (
                        State { params: Params { pattern_length, ..self.params }, ..self },
                        Pending { input_mode: Some(InputMode::Length), regenerate: true },
                    ),
                    None => (self, pending),
                }
            },
            Oper::LengthClick => (self, pending),
            Oper::Offset(tr, x) => {
                if self.input_mode == InputMode::Lfo(tr) {
                    (
                        State {
                            lfo: spec_array_update(self.lfo, tr as int, self.lfo[tr as int].spec_set_mode(x)),
                            last_action: now,
                            ..self
                        },
                        Pending { regenerate: true, ..pending },
                    )
                } else {
                    (
                        State {
                            params: Params {
                                tracks: spec_array_update(
                                    self.params.tracks,
                                    tr as int,
                                    spec_offset_edit(self.params.tracks[tr as int], x),
                                ),
                                ..self.params
                            },
                            ..self
                        },
                        Pending { input_mode: Some(InputMode::Offset(tr)), regenerate: true },
                    )
                }
            },
            Oper::OffsetClick(tr) => {
                if self.input_mode == InputMode::Lfo(tr) {
                    (self, Pending { input_mode: Some(InputMode::Offset(tr)), ..pending })
                } else {
                    (self, Pending { input_mode: Some(InputMode::Lfo(tr)), ..pending })
                }
            },
            Oper::Steps(tr, x) => {
                if self.input_mode == InputMode::TrackSync(tr) {
                    (
                        State {
                            track_sync: spec_array_update(
                                self.track_sync,
                                tr as int,
                                TrackSync::spec_from(self.track_sync[tr as int].spec_index() + x),
                            ),
                            last_action: now,
                            ..self
                        },
                        pending,
                    )
                } else {
                    (
                        State {
                            params: Params {
                                tracks: spec_array_update(
                                    self.params.tracks,
                                    tr as int,
                                    spec_steps_edit(self.params.tracks[tr as int], x),
                                ),
                                ..self.params
                            },
                            ..self
                        },
                        Pending { input_mode: Some(InputMode::Steps(tr)), regenerate: true },
                    )
                }
            },
            Oper::StepsClick(tr) => {
                if self.input_mode == InputMode::TrackSync(tr) {
                    (self, Pending { input_mode: Some(InputMode::Steps(tr)), ..pending })
                } else {
                    (self, Pending { input_mode: Some(InputMode::TrackSync(tr)), ..pending })
                }
            },
        }
    }

    /// The state and the requests after the operations of a batch, in
    /// order.
    pub open spec fn spec_fold(self, now: Time, opers: Seq<Oper>, replies: Seq<Reply>) -> (
        State,
        Pending,
    )
        decreases opers.len(),
    {
        if opers.len() == 0 {
            (self, Pending::spec_nothing())
        } else {
            let (st, pending) = self.spec_fold(now, opers.drop_last(), replies.drop_last());
            st.spec_apply(pending, now, opers.last(), replies[opers.len() - 1])
        }
    }

    /// The state at the end of a batch: a display mode that was asked for
    /// is taken up, and the time of the last action is `now`.
    pub open spec fn spec_finish(self, pending: Pending, now: Time) -> State {
        match pending.input_mode {
            Some(input_mode) => State { input_mode, last_action: now, ..self },
            None => self,
        }
    }

    /// The state after a batch of operations, and whether the patterns have
    /// to be generated anew.
    pub open spec fn spec_update(self, now: Time, opers: Seq<Oper>, replies: Seq<Reply>) -> (
        State,
        bool,
    ) {
        let (st, pending) = self.spec_fold(now, opers, replies);
        (st.spec_finish(pending, now), pending.regenerate)
    }

    /// The state in which nothing has been played or generated yet.
    pub open spec fn spec_at_rest(params: Params, waves: Waves) -> State {
        let zero = Time { count: 0 };
        State {
            input_mode: InputMode::Run,
            last_action: zero,
            params,
            patterns: spec_array_fill_for_copy_type(spec_array_fill_for_copy_type(0u8)),
            lfo: spec_array_fill_for_copy_type(Lfo::spec_new(waves)),
            track_sync: spec_array_fill_for_copy_type(TrackSync::Sync),
            mute: spec_array_fill_for_copy_type(false),
            playhead: 0,
            tick_count: 0,
            track_playhead: spec_array_fill_for_copy_type(0usize),
            track_per_tick: spec_array_fill_for_copy_type(0u64),
            next_is_reset: false,
            last: zero,
            predicted: zero,
        }
    }

    /// The state after the patterns were generated anew: it holds the new
    /// patterns, every oscillator has its new random table and its track's
    /// length, and the phase of one tick is the 32-bit range divided by the
    /// track's length.
    pub open spec fn spec_regenerate(self, patterns: [[u8; 64]; 4], draws: [[u32; 64]; 4]) -> State {
        let t = self.params.tracks;
        let l = self.lfo;
        let l = spec_array_update(l, 0, self.lfo[0].spec_set_seed_length(draws[0], t[0].length));
        let l = spec_array_update(l, 1, self.lfo[1].spec_set_seed_length(draws[1], t[1].length));
        let l = spec_array_update(l, 2, self.lfo[2].spec_set_seed_length(draws[2], t[2].length));
        let l = spec_array_update(l, 3, self.lfo[3].spec_set_seed_length(draws[3], t[3].length));
        let p = self.track_per_tick;
        let p = spec_array_update(p, 0, spec_per_tick(t[0].length));
        let p = spec_array_update(p, 1, spec_per_tick(t[1].length));
        let p = spec_array_update(p, 2, spec_per_tick(t[2].length));
        let p = spec_array_update(p, 3, spec_per_tick(t[3].length));
        State { patterns, lfo: l, track_per_tick: p, ..self }
    }
}

impl InputMode {
    /// Executable form of [`InputMode::wf`].
    pub fn is_valid(&self) -> (b: bool)
        ensures
            b == self.wf(),
    {
        match self {
            InputMode::Offset(tr) => *tr < 4,
            InputMode::Lfo(tr) => *tr < 4,
            InputMode::Steps(tr) => *tr < 4,
            InputMode::TrackSync(tr) => *tr < 4,
            _ => true,
        }
    }
}

impl State {
    /// Executable form of [`State::wf`].
    pub fn is_valid(&self) -> (b: bool)
        ensures
            b == self.wf(),
    {
        let mut ok: bool = self.input_mode.is_valid() && self.params.is_valid() && self.playhead <= self.tick_count
            && self.last_action.check_in_range() && self.last.check_in_range()
            && self.predicted.check_is_interval();
        let mut i: usize = 0;
        while i < 4
            invariant
                0 <= i <= 4,
                ok == (self.input_mode.wf() && self.params.wf() && self.playhead <= self.tick_count
                    && self.last_action.in_range()
                    && self.last.in_range() && self.predicted.is_interval() && (forall|j: int|
                    0 <= j < i ==> (#[trigger] self.lfo[j]).wf()) && (forall|j: int|
                    0 <= j < i ==> (#[trigger] self.track_playhead[j]) < 64) && (forall|j: int|
                    0 <= j < i ==> (#[trigger] self.track_per_tick[j]) <= u32::MAX)),
            decreases 4 - i,
        {
            if !(self.lfo[i].is_valid() && self.track_playhead[i] < 64 && self.track_per_tick[i] <= 0xffff_ffff) {
                ok = false;
            }
            i += 1;
        }
        ok
    }

    /// A state at rest: the display shows the running playhead, nothing has
    /// been played, every track is in `Sync` and unmuted. Patterns, random
    /// tables and the phase of a tick are those of [`State::regenerate`];
    /// `waves` holds sine and triangle at phase zero.
    pub fn new(params: Params, waves: Waves, patterns: &[[u8; 64]; 4], draws: &[[u32; 64]; 4]) -> (st: State)
        requires
            params.wf(),
        ensures
            st.wf(),
            st == State::spec_at_rest(params, waves).spec_regenerate(*patterns, *draws),
    {
        let zero = Time { count: 0 };
        let lfo = Lfo::new(waves);
        let mut st = State {
            input_mode: InputMode::Run,
            last_action: zero,
            params,
            patterns: [[0u8; 64]; 4],
            lfo: [lfo; 4],
            track_sync: [TrackSync::Sync; 4],
            mute: [false; 4],
            playhead: 0,
            tick_count: 0,
            track_playhead: [0usize; 4],
            track_per_tick: [0u64; 4],
            next_is_reset: false,
            last: zero,
            predicted: zero,
        };
        proof {
            broadcast use vstd::array::group_array_axioms;

            assert(st.wf());
        }
        st.regenerate(patterns, draws);
        st
    }

    /// Takes in newly generated patterns and random tables: see
    /// [`State::spec_regenerate`].
    pub fn regenerate(&mut self, patterns: &[[u8; 64]; 4], draws: &[[u32; 64]; 4])
        requires
            old(self).wf(),
        ensures
            *final(self) == old(self).spec_regenerate(*patterns, *draws),
            final(self).wf(),
    {
        broadcast use vstd::array::group_array_axioms;

        self.patterns = *patterns;
        let mut i: usize = 0;
        while i < 4
            invariant
                0 <= i <= 4,
                self.wf(),
                self.patterns == *patterns,
                forall|j: int|
                    0 <= j < i ==> (#[trigger] self.lfo[j]) == old(self).lfo[j].spec_set_seed_length(
                        draws[j],
                        old(self).params.tracks[j].length,
                    ),
                forall|j: int| i <= j < 4 ==> (#[trigger] self.lfo[j]) == old(self).lfo[j],
                forall|j: int|
                    0 <= j < i ==> (#[trigger] self.track_per_tick[j]) == spec_per_tick(
                        old(self).params.tracks[j].length,
                    ),
                forall|j: int| i <= j < 4 ==> (#[trigger] self.track_per_tick[j]) == old(self).track_per_tick[j],
                *self == (State { lfo: self.lfo, track_per_tick: self.track_per_tick, patterns: *patterns, ..*old(self) }),
            decreases 4 - i,
        {
            let length = self.params.tracks[i].length;
            assert(self.params.tracks[i as int].wf());
            let mut lfo = self.lfo[i];
            lfo.set_seed_length(&draws[i], length);
            self.lfo[i] = lfo;
            self.track_per_tick[i] = (u32::MAX / length as u32) as u64;
            i += 1;
        }
        proof {
            let st = old(self).spec_regenerate(*patterns, *draws);
            assert(self.lfo =~= st.lfo);
            assert(self.track_per_tick =~= st.track_per_tick);
            assert(*self =~= st);
        }
    }

    /// The playhead within the pattern.
    pub fn playhead(&self) -> (p: usize)
        requires
            self.params.pattern_length > 0,
        ensures
            p == self.spec_playhead(),
            p < self.params.pattern_length,
    {
        (self.playhead % self.params.pattern_length as u64) as usize
    }

    /// Moves the playheads of the four tracks to where their sync policies
    /// put them.
    pub fn update_track_playhead(&mut self)
        requires
            old(self).wf(),
        ensures
            *final(self) == (State {
                track_playhead: old(self).spec_track_playheads(old(self).playhead, old(self).tick_count),
                ..*old(self)
            }),
            final(self).wf(),
            forall|i: int|
                0 <= i < 4 ==> (#[trigger] final(self).track_playhead[i]) < final(self).params.tracks[i].length,
    {
        let plen = self.params.pattern_length;
        let p0 = track_playhead_of(self.track_sync[0], self.playhead, self.tick_count, plen, self.params.tracks[0].length);
        let p1 = track_playhead_of(self.track_sync[1], self.playhead, self.tick_count, plen, self.params.tracks[1].length);
        let p2 = track_playhead_of(self.track_sync[2], self.playhead, self.tick_count, plen, self.params.tracks[2].length);
        let p3 = track_playhead_of(self.track_sync[3], self.playhead, self.tick_count, plen, self.params.tracks[3].length);
        self.track_playhead = [p0, p1, p2, p3];
        proof {
            broadcast use vstd::array::group_array_axioms;

            assert(self.track_playhead =~= old(self).spec_track_playheads(old(self).playhead, old(self).tick_count));
        }
    }

    /// The parameters after a re-randomization from 25 draws.
    pub fn fate_params(&self, draws: &[u32; 25]) -> (p: Params)
        requires
            self.params.wf(),
        ensures
            p == self.spec_fate_params(draws@),
            p.wf(),
    {
        let t0 = fate_track(draws, 0);
        let t1 = fate_track(draws, 6);
        let t2 = fate_track(draws, 12);
        let t3 = fate_track(draws, 18);
        let p = Params { seed: fate_seed(draws[24]), pattern_length: self.params.pattern_length, tracks: [t0, t1, t2, t3] };
        proof {
            broadcast use vstd::array::group_array_axioms;

            assert(p.tracks =~= self.spec_fate_params(draws@).tracks);
        }
        p
    }

    /// Applies one operation: see [`State::spec_apply`].
    pub fn apply(&mut self, pending: &mut Pending, now: Time, oper: Oper, reply: &Reply)
        requires
            old(self).wf(),
            old(pending).wf(),
            now.in_range(),
            oper.wf(),
            oper is Tick ==> reply.predicted.is_interval() && old(self).tick_count < u64::MAX,
        ensures
            (*final(self), *final(pending)) == old(self).spec_apply(*old(pending), now, oper, *reply),
            final(self).wf(),
            final(pending).wf(),
    {
        broadcast use vstd::array::group_array_axioms;

        match oper {
            Oper::Tick(_) => {
                self.last = now;
                self.predicted = reply.predicted;
                self.tick_count = self.tick_count + 1;
                self.playhead = if self.next_is_reset {
                    0
                } else {
                    self.playhead + 1
                };
                self.next_is_reset = false;
                self.update_track_playhead();
            },
            Oper::Reset => {
                self.next_is_reset = true;
            },
            Oper::Seed(x) => {
                if self.input_mode == InputMode::Fate {
                    self.params = self.fate_params(&reply.draws);
                    self.next_is_reset = true;
                    pending.regenerate = true;
                } else {
                    match seed_edit(self.params.seed, x) {
                        Some(seed) => {
                            self.params.seed = seed;
                            pending.input_mode = Some(InputMode::Seed);
                            pending.regenerate = true;
                        },
                        None => {},
                    }
                }
            },
            Oper::SeedClick => {
                if self.input_mode == InputMode::Fate {
                    pending.input_mode = Some(InputMode::Seed);
                } else {
                    pending.input_mode = Some(InputMode::Fate);
                }
            },
            Oper::Length(x) => {
                match length_edit(self.params.pattern_length, x) {
                    Some(n) => {
                        self.params.pattern_length = n;
                        pending.input_mode = Some(InputMode::Length);
                        pending.regenerate = true;
                    },
                    None => {},
                }
            },
            Oper::LengthClick => {},
            Oper::Offset(tr, x) => {
                if self.input_mode == InputMode::Lfo(tr) {
                    let mut lfo = self.lfo[tr];
                    lfo.set_mode(x);
                    self.lfo[tr] = lfo;
                    self.last_action = now;
                    pending.regenerate = true;
                } else {
                    let t = offset_edit(self.params.tracks[tr], x);
                    self.params.tracks[tr] = t;
                    pending.input_mode = Some(InputMode::Offset(tr));
                    pending.regenerate = true;
                }
            },
            Oper::OffsetClick(tr) => {
                if self.input_mode == InputMode::Lfo(tr) {
                    pending.input_mode = Some(InputMode::Offset(tr));
                } else {
                    pending.input_mode = Some(InputMode::Lfo(tr));
                }
            },
            Oper::Steps(tr, x) => {
                if self.input_mode == InputMode::TrackSync(tr) {
                    let n: i16 = self.track_sync[tr].index() as i16 + x as i16;
                    self.track_sync[tr] = TrackSync::wrap(n);
                    self.last_action = now;
                } else {
                    let t = steps_edit(self.params.tracks[tr], x);
                    self.params.tracks[tr] = t;
                    pending.input_mode = Some(InputMode::Steps(tr));
                    pending.regenerate = true;
                }
            },
            Oper::StepsClick(tr) => {
                if self.input_mode == InputMode::TrackSync(tr) {
                    pending.input_mode = Some(InputMode::Steps(tr));
                } else {
                    pending.input_mode = Some(InputMode::TrackSync(tr));
                }
            },
        }
        proof {
            let (st, p) = old(self).spec_apply(*old(pending), now, oper, *reply);
            assert(self.params.tracks =~= st.params.tracks);
            assert(self.params =~= st.params);
            assert(self.lfo =~= st.lfo);
            assert(self.track_sync =~= st.track_sync);
            assert(self.track_playhead =~= st.track_playhead);
            assert(*self =~= st);
        }
    }

    /// Applies the operations of a batch in order, each with its reply, and
    /// takes up the display mode they ask for. Returns whether the patterns
    /// have to be generated anew (see [`State::regenerate`]).
    pub fn update(&mut self, now: Time, todo: &[Oper], replies: &[Reply]) -> (regenerate: bool)
        requires
            old(self).wf(),
            now.in_range(),
            todo@.len() == replies@.len(),
            forall|i: int| 0 <= i < todo@.len() ==> (#[trigger] todo@[i]).wf(),
            forall|i: int|
                0 <= i < todo@.len() && (#[trigger] todo@[i]) is Tick ==> replies@[i].predicted.is_interval(),
            old(self).tick_count + spec_ticks(todo@) <= u64::MAX,
        ensures
            (*final(self), regenerate) == old(self).spec_update(now, todo@, replies@),
            final(self).wf(),
    {
        let mut pending = Pending::nothing();
        let n: usize = todo.len();
        let mut i: usize = 0;
        while i < n
            invariant
                0 <= i <= n,
                n == todo@.len(),
                n == replies@.len(),
                now.in_range(),
                self.wf(),
                pending.wf(),
                forall|i: int| 0 <= i < todo@.len() ==> (#[trigger] todo@[i]).wf(),
                forall|i: int|
                    0 <= i < todo@.len() && (#[trigger] todo@[i]) is Tick
                        ==> replies@[i].predicted.is_interval(),
                self.tick_count <= old(self).tick_count + spec_ticks(todo@.take(i as int)),
                old(self).tick_count + spec_ticks(todo@) <= u64::MAX,
                (*self, pending) == old(self).spec_fold(now, todo@.take(i as int), replies@.take(i as int)),
            decreases n - i,
        {
            let oper = todo[i];
            let reply = &replies[i];
            proof {
                assert(todo@[i as int].wf());
                let ops = todo@.take(i + 1);
                let rs = replies@.take(i + 1);
                assert(ops.drop_last() =~= todo@.take(i as int));
                assert(rs.drop_last() =~= replies@.take(i as int));
                assert(ops.last() == todo@[i as int]);
                assert(rs[ops.len() - 1] == replies@[i as int]);
                lemma_ticks_prefix(todo@, i + 1);
            }
            self.apply(&mut pending, now, oper, reply);
            i += 1;
        }
        proof {
            assert(todo@.take(n as int) =~= todo@);
            assert(replies@.take(n as int) =~= replies@);
        }
        match pending.input_mode {
            Some(input_mode) => {
                self.input_mode = input_mode;
                self.last_action = now;
            },
            None => {},
        }
        pending.regenerate
    }

    /// Applies the operations that wait in `todo`, as [`State::update`]
    /// does, and empties the queue.
    pub fn update_queued(&mut self, now: Time, todo: &mut OperQueue, replies: &[Reply]) -> (regenerate: bool)
        requires
            old(self).wf(),
            now.in_range(),
            queued(*old(todo)).len() == replies@.len(),
            spec_all_wf(queued(*old(todo))),
            forall|i: int|
                0 <= i < replies@.len() && (#[trigger] queued(*old(todo))[i]) is Tick
                    ==> replies@[i].predicted.is_interval(),
            old(self).tick_count + spec_ticks(queued(*old(todo))) <= u64::MAX,
        ensures
            (*final(self), regenerate) == old(self).spec_update(now, queued(*old(todo)), replies@),
            final(self).wf(),
            queued(*final(todo)) == Seq::<Oper>::empty(),
    {
        let regenerate = self.update(now, oper_slice(todo), replies);
        clear_opers(todo);
        regenerate
    }
}

/// An operation on valid parameters leaves valid parameters.
pub proof fn lemma_apply_keeps_bounds(st: State, pending: Pending, now: Time, oper: Oper, reply: Reply)
    requires
        st.params.wf(),
        oper.wf(),
    ensures
        st.spec_apply(pending, now, oper, reply).0.params.wf(),
{
    broadcast use vstd::array::group_array_axioms;

    let after = st.spec_apply(pending, now, oper, reply).0.params;
    match oper {
        Oper::Seed(x) => {
            if st.input_mode == InputMode::Fate {
                let d = reply.draws@;
                lemma_fate_track_wf(d, 0);
                lemma_fate_track_wf(d, 6);
                lemma_fate_track_wf(d, 12);
                lemma_fate_track_wf(d, 18);
                assert(u32::MAX / SEED_MAX == 429539);
                assert(d[24] / 429539 <= SEED_MAX);
                assert forall|i: int| 0 <= i < 4 implies (#[trigger] after.tracks[i]).wf() by {}
            }
        },
        Oper::Offset(tr, x) => {
            assert forall|i: int| 0 <= i < 4 implies (#[trigger] after.tracks[i]).wf() by {
                assert(st.params.tracks[i].wf());
            }
        },
        Oper::Steps(tr, x) => {
            assert forall|i: int| 0 <= i < 4 implies (#[trigger] after.tracks[i]).wf() by {
                assert(st.params.tracks[i].wf());
            }
        },
        _ => {},
    }
}

/// For every batch of operations and every reply to them, the seed stays
/// within 0 to 9999 above its base, the pattern length and every track's
/// length stay within 2 to 64, and every track's steps stay at most its
/// length.
pub proof fn law_params_stay_in_bounds(st: State, now: Time, opers: Seq<Oper>, replies: Seq<Reply>)
    requires
        st.params.wf(),
        forall|i: int| 0 <= i < opers.len() ==> (#[trigger] opers[i]).wf(),
    ensures
        st.spec_fold(now, opers, replies).0.params.wf(),
        st.spec_update(now, opers, replies).0.params.wf(),
        SEED_BASE <= st.spec_update(now, opers, replies).0.params.seed <= SEED_BASE + SEED_MAX,
    decreases opers.len(),
{
    if opers.len() > 0 {
        law_params_stay_in_bounds(st, now, opers.drop_last(), replies.drop_last());
        let (mid, pending) = st.spec_fold(now, opers.drop_last(), replies.drop_last());
        lemma_apply_keeps_bounds(mid, pending, now, opers.last(), replies[opers.len() - 1]);
    }
}

/// A turn of the seed knob that would take the seed below 0 or above 9999
/// changes nothing.
pub proof fn law_seed_out_of_range_is_ignored(st: State, pending: Pending, now: Time, x: i8, reply: Reply)
    requires
        st.input_mode != InputMode::Fate,
        !(0 <= st.params.seed - SEED_BASE + x <= SEED_MAX),
    ensures
        st.spec_apply(pending, now, Oper::Seed(x), reply) == (st, pending),
{
}

/// A turn of the length knob that would take the pattern length below 2 or
/// above 64 changes nothing.
pub proof fn law_length_out_of_range_is_ignored(st: State, pending: Pending, now: Time, x: i8, reply: Reply)
    requires
        !(LENGTH_MIN <= st.params.pattern_length + x <= LENGTH_MAX),
    ensures
        st.spec_apply(pending, now, Oper::Length(x), reply) == (st, pending),
{
}

/// After a tick, a track's playhead is the playhead within the pattern
/// modulo the lesser of pattern length and track length under `Sync`, the
/// playhead since the last reset modulo the track length under `Free`, and
/// the count of all ticks modulo the track length under `Loop`.
pub proof fn law_track_playhead_after_tick(st: State, now: Time, predicted: Time, i: int)
    requires
        st.params.wf(),
        0 <= i < 4,
    ensures
        ({
            let after = st.spec_tick(now, predicted);
            let length = after.params.tracks[i].length as int;
            let pattern_length = after.params.pattern_length as int;
            &&& after.params == st.params
            &&& after.track_sync == st.track_sync
            &&& after.track_sync[i] == TrackSync::Sync ==> after.track_playhead[i] == (after.playhead as int
                % pattern_length) % spec_min(pattern_length, length)
            &&& after.track_sync[i] == TrackSync::Sync ==> after.track_playhead[i] == after.spec_playhead() as int
                % spec_min(pattern_length, length)
            &&& after.track_sync[i] == TrackSync::Free ==> after.track_playhead[i] == after.playhead as int % length
            &&& after.track_sync[i] == TrackSync::Loop ==> after.track_playhead[i] == after.tick_count as int
                % length
        }),
{
    broadcast use vstd::array::group_array_axioms;

    assert(st.params.tracks[i].wf());
}

/// A reset moves no track's playhead, and the tick after it puts a `Loop`
/// track where it would have been without the reset.
pub proof fn law_loop_ignores_reset(st: State, pending: Pending, now: Time, reply: Reply, i: int)
    requires
        0 <= i < 4,
        st.track_sync[i] == TrackSync::Loop,
    ensures
        st.spec_apply(pending, now, Oper::Reset, reply).0.track_playhead == st.track_playhead,
        st.spec_apply(pending, now, Oper::Reset, reply).0.spec_tick(now, reply.predicted).track_playhead[i]
            == st.spec_tick(now, reply.predicted).track_playhead[i],
{
    broadcast use vstd::array::group_array_axioms;

}

/// A batch without operations changes nothing and asks for nothing.
pub proof fn law_update_nothing(st: State, now: Time)
    ensures
        st.spec_update(now, Seq::empty(), Seq::empty()) == (st, false),
{
}

/// A batch of one operation is that operation applied and the batch
/// finished.
pub proof fn lemma_update_one(st: State, now: Time, oper: Oper, reply: Reply)
    ensures
        st.spec_update(now, seq![oper], seq![reply]) == ({
            let (after, pending) = st.spec_apply(Pending::spec_nothing(), now, oper, reply);
            (after.spec_finish(pending, now), pending.regenerate)
        }),
{
    let opers = seq![oper];
    let replies = seq![reply];
    assert(opers.drop_last() =~= Seq::<Oper>::empty());
    assert(replies.drop_last() =~= Seq::<Reply>::empty());
    assert(st.spec_fold(now, opers.drop_last(), replies.drop_last()) == (st, Pending::spec_nothing()));
}

/// A batch of two operations is the first applied, then the second, and
/// the batch finished.
pub proof fn lemma_update_two(st: State, now: Time, first: Oper, second: Oper, r1: Reply, r2: Reply)
    ensures
        st.spec_update(now, seq![first, second], seq![r1, r2]) == ({
            let (mid, p1) = st.spec_apply(Pending::spec_nothing(), now, first, r1);
            let (after, pending) = mid.spec_apply(p1, now, second, r2);
            (after.spec_finish(pending, now), pending.regenerate)
        }),
{
    let opers = seq![first, second];
    let replies = seq![r1, r2];
    assert(opers.drop_last() =~= seq![first]);
    assert(replies.drop_last() =~= seq![r1]);
    assert(seq![first].drop_last() =~= Seq::<Oper>::empty());
    assert(seq![r1].drop_last() =~= Seq::<Reply>::empty());
    assert(st.spec_fold(now, Seq::<Oper>::empty(), Seq::<Reply>::empty()) == (st, Pending::spec_nothing()));
    assert(st.spec_fold(now, seq![first], seq![r1]) == st.spec_apply(Pending::spec_nothing(), now, first, r1));
}

/// Outside the mode that re-randomizes, a batch of one turn of the seed
/// knob that would take the seed below 0 or above 9999 leaves the whole
/// state as it was and asks for no regeneration.
pub proof fn law_update_seed_out_of_range(st: State, now: Time, x: i8, reply: Reply)
    requires
        st.input_mode != InputMode::Fate,
        !(0 <= st.params.seed - SEED_BASE + x <= SEED_MAX),
    ensures
        st.spec_update(now, seq![Oper::Seed(x)], seq![reply]) == (st, false),
{
    lemma_update_one(st, now, Oper::Seed(x), reply);
}

/// A batch of one turn of the seed knob that stays within 0 to 9999 moves
/// the seed by the turn, shows the seed, and asks for regeneration.
pub proof fn law_update_seed_in_range(st: State, now: Time, x: i8, reply: Reply)
    requires
        st.input_mode != InputMode::Fate,
        0 <= st.params.seed - SEED_BASE + x <= SEED_MAX,
    ensures
        st.spec_update(now, seq![Oper::Seed(x)], seq![reply]) == (
            State {
                params: Params { seed: (st.params.seed + x) as u32, ..st.params },
                input_mode: InputMode::Seed,
                last_action: now,
                ..st
            },
            true,
        ),
{
    lemma_update_one(st, now, Oper::Seed(x), reply);
}

/// A batch of one turn of the length knob gives the pattern length plus
/// the turn where that lies within 2 to 64, and shows the length; a turn
/// that would leave those bounds changes nothing at all.
pub proof fn law_update_length(st: State, now: Time, x: i8, reply: Reply)
    ensures
        LENGTH_MIN <= st.params.pattern_length + x <= LENGTH_MAX ==> st.spec_update(
            now,
            seq![Oper::Length(x)],
            seq![reply],
        ) == (
            State {
                params: Params { pattern_length: (st.params.pattern_length + x) as u8, ..st.params },
                input_mode: InputMode::Length,
                last_action: now,
                ..st
            },
            true,
        ),
        !(LENGTH_MIN <= st.params.pattern_length + x <= LENGTH_MAX) ==> st.spec_update(
            now,
            seq![Oper::Length(x)],
            seq![reply],
        ) == (st, false),
{
    lemma_update_one(st, now, Oper::Length(x), reply);
}

/// Outside the mode that cycles the sync policy, a batch of one step down
/// from zero steps on a track longer than two makes the track one step
/// shorter and fills it.
pub proof fn law_update_steps_wrap_shrink(st: State, now: Time, tr: usize, reply: Reply)
    requires
        tr < 4,
        st.input_mode != InputMode::TrackSync(tr),
        st.params.tracks[tr as int].wf(),
        st.params.tracks[tr as int].steps == 0,
        st.params.tracks[tr as int].length > LENGTH_MIN,
    ensures
        ({
            let (after, regenerate) = st.spec_update(now, seq![Oper::Steps(tr, -1i8)], seq![reply]);
            &&& after.params.tracks[tr as int].length == st.params.tracks[tr as int].length - 1
            &&& after.params.tracks[tr as int].steps == st.params.tracks[tr as int].length - 1
            &&& after.input_mode == InputMode::Steps(tr)
            &&& regenerate
        }),
{
    broadcast use vstd::array::group_array_axioms;

    lemma_update_one(st, now, Oper::Steps(tr, -1i8), reply);
    law_steps_wrap_shrink(st.params.tracks[tr as int]);
}

/// Outside the mode that cycles the sync policy, a batch of one step up
/// from a full track shorter than 64 makes the track one step longer and
/// empties it.
pub proof fn law_update_steps_wrap_grow(st: State, now: Time, tr: usize, reply: Reply)
    requires
        tr < 4,
        st.input_mode != InputMode::TrackSync(tr),
        st.params.tracks[tr as int].wf(),
        st.params.tracks[tr as int].steps == st.params.tracks[tr as int].length,
        st.params.tracks[tr as int].length < LENGTH_MAX,
    ensures
        ({
            let (after, regenerate) = st.spec_update(now, seq![Oper::Steps(tr, 1i8)], seq![reply]);
            &&& after.params.tracks[tr as int].length == st.params.tracks[tr as int].length + 1
            &&& after.params.tracks[tr as int].steps == 0
            &&& after.input_mode == InputMode::Steps(tr)
            &&& regenerate
        }),
{
    broadcast use vstd::array::group_array_axioms;

    lemma_update_one(st, now, Oper::Steps(tr, 1i8), reply);
}

/// A reset and the tick after it, in one batch: the count of all ticks
/// grows by one and is never set back, the playhead starts again at zero,
/// the flag for the restart is down again, every `Sync` and `Free` track
/// stands at zero, and every `Loop` track stands where the count of all
/// ticks puts it, as it would without the reset.
pub proof fn law_update_reset_then_tick(st: State, now: Time, interval: Time, r1: Reply, r2: Reply, i: int)
    requires
        st.params.wf(),
        st.tick_count < u64::MAX,
        0 <= i < 4,
    ensures
        ({
            let (after, regenerate) = st.spec_update(now, seq![Oper::Reset, Oper::Tick(interval)], seq![r1, r2]);
            &&& after.tick_count == st.tick_count + 1
            &&& after.playhead == 0
            &&& !after.next_is_reset
            &&& !regenerate
            &&& after.params == st.params
            &&& st.track_sync[i] == TrackSync::Loop ==> after.track_playhead[i] == (st.tick_count + 1)
                % (st.params.tracks[i].length as int)
            &&& st.track_sync[i] == TrackSync::Loop ==> after.track_playhead[i] == st.spec_tick(
                now,
                r2.predicted,
            ).track_playhead[i]
            &&& st.track_sync[i] != TrackSync::Loop ==> after.track_playhead[i] == 0
        }),
{
    broadcast use vstd::array::group_array_axioms;

    lemma_update_two(st, now, Oper::Reset, Oper::Tick(interval), r1, r2);
    assert(st.params.tracks[i].wf());
}

} // verus!
