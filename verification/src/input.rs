//! The input decoder: from captured facts to queued operations.
//!
//! Once per pass of the main loop the decoder is handed what was captured
//! since the pass before: whether the reset line fired, when the clock line
//! fired, and the latest readings of the two I/O expanders. It appends what
//! they mean to the queue of operations, in a fixed order: reset, clock,
//! seed, then (only if an expander reading changed) the seed button, length
//! and its button, and for each track offset, offset button, steps and
//! steps button.

use vstd::prelude::*;
use crate::clock::Time;
use crate::encoder::{spec_pair, Encoder, EncoderAccelerator};
use crate::queue::{push_oper, queued, OperQueue};
use crate::state::{spec_all_wf, Oper};

verus! {

/// Most operations one pass can append.
pub const PASS_MAX: usize = 22;

/// A change of level, with the time it was seen.
#[derive(Clone, Copy, Debug, PartialEq, Eq, Structural)]
pub enum Edge {
    Rising(Time),
    Falling(Time),
}

/// Detects the edges of a digital line.
#[derive(Clone, Copy, Debug, PartialEq, Eq, Structural)]
pub struct EdgeInput {
    /// The level sampled last; none before the first sample.
    pub level: Option<bool>,
}

impl EdgeInput {
    /// The detector after the sample `high` at `now`, and the edge it
    /// sees: none at the first sample and where the level stays.
    pub open spec fn spec_tick(self, now: Time, high: bool) -> (EdgeInput, Option<Edge>) {
        (
            EdgeInput { level: Some(high) },
            match self.level {
                Some(was) => if was == high {
                    None
                } else if high {
                    Some(Edge::Rising(now))
                } else {
                    Some(Edge::Falling(now))
                },
                None => None,
            },
        )
    }

    /// A detector that has seen nothing yet.
    pub fn new() -> (e: EdgeInput)
        ensures
            e.level is None,
    {
        EdgeInput { level: None }
    }

    /// Takes in the sample `high` at `now`: see [`EdgeInput::spec_tick`].
    pub fn tick(&mut self, now: Time, high: bool) -> (edge: Option<Edge>)
        ensures
            (*final(self), edge) == old(self).spec_tick(now, high),
    {
        let was = self.level;
        self.level = Some(high);
        match was {
            Some(was) => {
                if was == high {
                    None
                } else if high {
                    Some(Edge::Rising(now))
                } else {
                    Some(Edge::Falling(now))
                }
            },
            None => None,
        }
    }
}

/// The clock and reset lines where they are sampled instead of captured.
/// Both are inverted: a pulse begins with a falling edge.
#[derive(Clone, Copy, Debug, PartialEq, Eq, Structural)]
pub struct PolledLines {
    pub clock: EdgeInput,
    pub reset: EdgeInput,
}

impl PolledLines {
    /// The lines after a sample at `now`, whether the reset line fell, and
    /// when the clock line fell.
    pub open spec fn spec_sample(self, now: Time, clock_high: bool, reset_high: bool) -> (
        PolledLines,
        bool,
        Option<Time>,
    ) {
        let (reset, reset_edge) = self.reset.spec_tick(now, reset_high);
        let (clock, clock_edge) = self.clock.spec_tick(now, clock_high);
        (
            PolledLines { clock, reset },
            reset_edge is Some && reset_edge->0 is Falling,
            if clock_edge is Some && clock_edge->0 is Falling {
                Some(now)
            } else {
                None
            },
        )
    }

    /// Lines that have not been sampled yet.
    pub fn new() -> (lines: PolledLines)
        ensures
            lines == (PolledLines { clock: EdgeInput { level: None }, reset: EdgeInput { level: None } }),
    {
        PolledLines { clock: EdgeInput::new(), reset: EdgeInput::new() }
    }

    /// Takes in the levels of both lines at `now`, the reset line first.
    /// Returns whether the reset line fell and when the clock line fell.
    pub fn sample(&mut self, now: Time, clock_high: bool, reset_high: bool) -> (fell: (bool, Option<Time>))
        ensures
            (*final(self), fell.0, fell.1) == old(self).spec_sample(now, clock_high, reset_high),
    {
        let reset: bool = match self.reset.tick(now, reset_high) {
            Some(Edge::Falling(_)) => true,
            _ => false,
        };
        let clock: Option<Time> = match self.clock.tick(now, clock_high) {
            Some(Edge::Falling(at)) => Some(at),
            _ => None,
        };
        (reset, clock)
    }
}

/// Holds back the changes of a bouncing line.
#[derive(Clone, Copy, Debug, PartialEq, Eq, Structural)]
pub struct Debounce {
    /// How long the line has to stay at a level before the level counts.
    pub hold: Time,
    /// The level that counts.
    pub level: bool,
    /// The level sampled last.
    pub raw: bool,
    /// Since when the line has been at `raw`.
    pub since: Time,
}

impl Debounce {
    pub open spec fn wf(self) -> bool {
        self.since.in_range()
    }

    /// The debouncer after the sample `high` at `now`, and the level that
    /// counts.
    ///
    /// A sample that differs from the one before restarts the wait. A new
    /// level counts once the line has stayed at it for the hold time.
    pub open spec fn spec_tick(self, now: Time, high: bool) -> (Debounce, bool) {
        if high != self.raw {
            (Debounce { raw: high, since: now, ..self }, self.level)
        } else if high != self.level && now.count - self.since.count >= self.hold.count {
            (Debounce { level: high, ..self }, high)
        } else {
            (self, self.level)
        }
    }

    /// A debouncer of a line that rests low.
    pub fn new(hold: Time) -> (d: Debounce)
        ensures
            d == (Debounce { hold, level: false, raw: false, since: Time { count: 0 } }),
            d.wf(),
    {
        Debounce { hold, level: false, raw: false, since: Time { count: 0 } }
    }

    /// Takes in the sample `high` at `now`: see [`Debounce::spec_tick`].
    pub fn tick(&mut self, now: Time, high: bool) -> (level: bool)
        requires
            old(self).wf(),
            now.in_range(),
        ensures
            (*final(self), level) == old(self).spec_tick(now, high),
            final(self).wf(),
    {
        if high != self.raw {
            self.raw = high;
            self.since = now;
        } else if high != self.level && now.count - self.since.count >= self.hold.count {
            self.level = high;
        }
        self.level
    }
}

/// The two I/O expanders.
#[derive(Clone, Copy, Debug, PartialEq, Eq, Structural)]
pub enum Expander {
    First,
    Second,
}

/// What was captured for one pass.
#[derive(Clone, Copy, Debug, PartialEq, Eq, Structural)]
pub struct Captured {
    /// The reset line fired.
    pub reset: bool,
    /// The clock line fired, at this time.
    pub clock: Option<Time>,
    /// Latest reading of the first expander.
    pub ext1: u16,
    /// Latest reading of the second expander.
    pub ext2: u16,
}

impl Captured {
    pub open spec fn wf(self) -> bool {
        self.clock matches Some(t) ==> t.in_range()
    }

    /// The reading of an expander.
    pub open spec fn spec_reading(self, expander: Expander) -> u16 {
        match expander {
            Expander::First => self.ext1,
            Expander::Second => self.ext2,
        }
    }

    /// The reading of an expander.
    pub fn reading(&self, expander: Expander) -> (r: u16)
        ensures
            r == self.spec_reading(expander),
    {
        match expander {
            Expander::First => self.ext1,
            Expander::Second => self.ext2,
        }
    }
}

/// A push button on one line of an expander.
#[derive(Clone, Copy, Debug, PartialEq, Eq, Structural)]
pub struct Button {
    pub expander: Expander,
    /// The button's bit in the reading.
    pub mask: u16,
    pub debounce: Debounce,
    pub edge: EdgeInput,
}

impl Button {
    pub open spec fn wf(self) -> bool {
        self.debounce.wf()
    }

    /// The button after a pass, and whether it was clicked: whether its
    /// debounced level rose.
    pub open spec fn spec_tick(self, now: Time, seen: Captured) -> (Button, bool) {
        let (debounce, level) = self.debounce.spec_tick(now, seen.spec_reading(self.expander) & self.mask != 0);
        let (edge, change) = self.edge.spec_tick(now, level);
        (Button { debounce, edge, ..self }, change is Some && change->0 is Rising)
    }

    /// A button at rest.
    pub fn new(expander: Expander, mask: u16, hold: Time) -> (b: Button)
        ensures
            b == (Button {
                expander,
                mask,
                debounce: Debounce { hold, level: false, raw: false, since: Time { count: 0 } },
                edge: EdgeInput { level: None },
            }),
            b.wf(),
    {
        Button { expander, mask, debounce: Debounce::new(hold), edge: EdgeInput::new() }
    }

    /// Takes in a pass: see [`Button::spec_tick`].
    pub fn tick(&mut self, now: Time, seen: &Captured) -> (clicked: bool)
        requires
            old(self).wf(),
            now.in_range(),
        ensures
            (*final(self), clicked) == old(self).spec_tick(now, *seen),
            final(self).wf(),
    {
        let high: bool = seen.reading(self.expander) & self.mask != 0;
        let level = self.debounce.tick(now, high);
        match self.edge.tick(now, level) {
            Some(Edge::Rising(_)) => true,
            _ => false,
        }
    }
}

/// A rotary encoder on two lines of an expander.
#[derive(Clone, Copy, Debug, PartialEq, Eq, Structural)]
pub struct Knob {
    pub expander: Expander,
    /// Bit of phase line A in the reading.
    pub mask_a: u16,
    /// Bit of phase line B in the reading.
    pub mask_b: u16,
    pub encoder: Encoder,
}

impl Knob {
    /// Level of phase line A in a pass.
    pub open spec fn spec_a(self, seen: Captured) -> bool {
        seen.spec_reading(self.expander) & self.mask_a != 0
    }

    /// Level of phase line B in a pass.
    pub open spec fn spec_b(self, seen: Captured) -> bool {
        seen.spec_reading(self.expander) & self.mask_b != 0
    }

    /// The knob after a pass, and the step it emits.
    pub open spec fn spec_tick(self, seen: Captured) -> (Knob, i8) {
        let (encoder, d) = self.encoder.spec_tick(self.spec_a(seen), self.spec_b(seen));
        (Knob { encoder, ..self }, d)
    }

    /// A knob at rest.
    pub fn new(expander: Expander, mask_a: u16, mask_b: u16) -> (k: Knob)
        ensures
            k == (Knob { expander, mask_a, mask_b, encoder: Encoder { prev_next: 0, state: 0 } }),
    {
        Knob { expander, mask_a, mask_b, encoder: Encoder::new() }
    }

    /// Takes in a pass: see [`Knob::spec_tick`].
    pub fn tick(&mut self, seen: &Captured) -> (d: i8)
        ensures
            (*final(self), d) == old(self).spec_tick(*seen),
            -1 <= d <= 1,
    {
        let reading = seen.reading(self.expander);
        self.encoder.tick(reading & self.mask_a != 0, reading & self.mask_b != 0)
    }
}

/// A rotary encoder with acceleration on two lines of an expander.
#[derive(Clone, Copy, Debug, PartialEq, Eq, Structural)]
pub struct FastKnob {
    pub expander: Expander,
    /// Bit of phase line A in the reading.
    pub mask_a: u16,
    /// Bit of phase line B in the reading.
    pub mask_b: u16,
    pub accelerator: EncoderAccelerator,
}

impl FastKnob {
    pub open spec fn wf(self) -> bool {
        self.accelerator.wf()
    }

    /// The knob after a pass at `now`, and the step it emits.
    pub open spec fn spec_tick(self, now: Time, seen: Captured) -> (FastKnob, i8) {
        let reading = seen.spec_reading(self.expander);
        let (accelerator, d) = self.accelerator.spec_tick(
            now,
            reading & self.mask_a != 0,
            reading & self.mask_b != 0,
        );
        (FastKnob { accelerator, ..self }, d)
    }

    /// A knob at rest.
    pub fn new(expander: Expander, mask_a: u16, mask_b: u16) -> (k: FastKnob)
        ensures
            k.wf(),
            k.expander == expander,
            k.mask_a == mask_a,
            k.mask_b == mask_b,
            k.accelerator.encoder == (Encoder { prev_next: 0, state: 0 }),
            k.accelerator.direction == 0,
            k.accelerator.speed == 0,
            k.accelerator.pool == 0,
    {
        FastKnob { expander, mask_a, mask_b, accelerator: EncoderAccelerator::new(Encoder::new()) }
    }

    /// Takes in a pass: see [`FastKnob::spec_tick`].
    pub fn tick(&mut self, now: Time, seen: &Captured) -> (d: i8)
        requires
            old(self).wf(),
            now.in_range(),
        ensures
            (*final(self), d) == old(self).spec_tick(now, *seen),
            final(self).wf(),
            -1 <= d <= 1,
    {
        let reading = seen.reading(self.expander);
        self.accelerator.tick(now, reading & self.mask_a != 0, reading & self.mask_b != 0)
    }
}

/// The queue with `oper` appended where `cond` holds.
pub open spec fn spec_push_if(q: Seq<Oper>, cond: bool, oper: Oper) -> Seq<Oper> {
    if cond {
        q.push(oper)
    } else {
        q
    }
}

/// Appends `oper` where `cond` holds.
fn push_if(todo: &mut OperQueue, cond: bool, oper: Oper)
    requires
        cond ==> queued(*old(todo)).len() < 64,
    ensures
        queued(*final(todo)) == spec_push_if(queued(*old(todo)), cond, oper),
        queued(*old(todo)).len() <= queued(*final(todo)).len() <= queued(*old(todo)).len() + 1,
        oper.wf() && spec_all_wf(queued(*old(todo))) ==> spec_all_wf(queued(*final(todo))),
{
    if cond {
        push_oper(todo, oper);
    }
}

/// The controls of one track.
#[derive(Clone, Copy, Debug, PartialEq, Eq, Structural)]
pub struct TrackInputs {
    pub offs: Knob,
    pub offs_btn: Button,
    pub step: Knob,
    pub step_btn: Button,
}

impl TrackInputs {
    pub open spec fn wf(self) -> bool {
        self.offs_btn.wf() && self.step_btn.wf()
    }

    /// The controls of one track.
    pub fn new(offs: Knob, offs_btn: Button, step: Knob, step_btn: Button) -> (t: TrackInputs)
        requires
            offs_btn.wf(),
            step_btn.wf(),
        ensures
            t.wf(),
            t == (TrackInputs { offs, offs_btn, step, step_btn }),
    {
        TrackInputs { offs, offs_btn, step, step_btn }
    }

    /// The controls of track `tr` after a pass, and the queue with what
    /// they mean appended: offset, offset button, steps, steps button.
    #[verifier::opaque]
    pub open spec fn spec_tick(self, tr: usize, now: Time, seen: Captured, q: Seq<Oper>) -> (
        TrackInputs,
        Seq<Oper>,
    ) {
        let (offs, x) = self.offs.spec_tick(seen);
        let q = spec_push_if(q, x != 0, Oper::Offset(tr, x));
        let (offs_btn, clicked) = self.offs_btn.spec_tick(now, seen);
        let q = spec_push_if(q, clicked, Oper::OffsetClick(tr));
        let (step, x) = self.step.spec_tick(seen);
        let q = spec_push_if(q, x != 0, Oper::Steps(tr, x));
        let (step_btn, clicked) = self.step_btn.spec_tick(now, seen);
        let q = spec_push_if(q, clicked, Oper::StepsClick(tr));
        (TrackInputs { offs, offs_btn, step, step_btn }, q)
    }

    /// Takes in a pass: see [`TrackInputs::spec_tick`]. The queue needs
    /// room for what the pass appends, which is at most four operations.
    pub fn tick(&mut self, tr: usize, now: Time, seen: &Captured, todo: &mut OperQueue)
        requires
            old(self).wf(),
            now.in_range(),
            old(self).spec_tick(tr, now, *seen, queued(*old(todo))).1.len() <= 64,
        ensures
            (*final(self), queued(*final(todo))) == old(self).spec_tick(tr, now, *seen, queued(*old(todo))),
            final(self).wf(),
            queued(*old(todo)).len() <= queued(*final(todo)).len() <= queued(*old(todo)).len() + 4,
            tr < 4 && spec_all_wf(queued(*old(todo))) ==> spec_all_wf(queued(*final(todo))),
    {
        proof {
            reveal(TrackInputs::spec_tick);
        }
        let x = self.offs.tick(seen);
        push_if(todo, x != 0, Oper::Offset(tr, x));
        let clicked = self.offs_btn.tick(now, seen);
        push_if(todo, clicked, Oper::OffsetClick(tr));
        let x = self.step.tick(seen);
        push_if(todo, x != 0, Oper::Steps(tr, x));
        let clicked = self.step_btn.tick(now, seen);
        push_if(todo, clicked, Oper::StepsClick(tr));
    }
}

/// All controls of the instrument.
#[derive(Clone, Copy, Debug, PartialEq, Eq)]
pub struct Inputs {
    /// Time of the last clock pulse.
    pub clock_last: Option<Time>,
    pub seed: FastKnob,
    pub seed_btn: Button,
    pub length: Knob,
    pub length_btn: Button,
    pub tracks: [TrackInputs; 4],
}

impl Inputs {
    pub open spec fn wf(self) -> bool {
        &&& self.clock_last matches Some(t) ==> t.in_range()
        &&& self.seed.wf()
        &&& self.seed_btn.wf()
        &&& self.length_btn.wf()
        &&& forall|i: int| 0 <= i < 4 ==> (#[trigger] self.tracks[i]).wf()
    }

    /// A decoder that has seen no clock pulse yet.
    pub fn new(seed: FastKnob, seed_btn: Button, length: Knob, length_btn: Button, tracks: [TrackInputs; 4]) -> (inputs:
        Inputs)
        requires
            seed.wf(),
            seed_btn.wf(),
            length_btn.wf(),
            forall|i: int| 0 <= i < 4 ==> (#[trigger] tracks[i]).wf(),
        ensures
            inputs.wf(),
            inputs == (Inputs { clock_last: None, seed, seed_btn, length, length_btn, tracks }),
    {
        Inputs { clock_last: None, seed, seed_btn, length, length_btn, tracks }
    }

    /// Clock, reset and seed after a pass, and the queue with what they
    /// mean appended.
    ///
    /// The reset comes first. A clock pulse means a tick, with the time
    /// since the pulse before it; the first pulse only starts the
    /// measurement.
    #[verifier::opaque]
    pub open spec fn spec_tick_lines(self, now: Time, seen: Captured, q: Seq<Oper>) -> (Inputs, Seq<Oper>) {
        let q = spec_push_if(q, seen.reset, Oper::Reset);
        let q = spec_push_if(
            q,
            seen.clock is Some && self.clock_last is Some,
            Oper::Tick(Time { count: (seen.clock->0.count - self.clock_last->0.count) as i64 }),
        );
        let clock_last = if seen.clock is Some {
            seen.clock
        } else {
            self.clock_last
        };
        let (seed, x) = self.seed.spec_tick(now, seen);
        let q = spec_push_if(q, x != 0, Oper::Seed(x));
        (Inputs { clock_last, seed, ..self }, q)
    }

    /// The controls on the expanders after a pass, and the queue with what
    /// they mean appended.
    #[verifier::opaque]
    pub open spec fn spec_tick_expanders(self, now: Time, seen: Captured, q: Seq<Oper>) -> (
        Inputs,
        Seq<Oper>,
    ) {
        let (seed_btn, clicked) = self.seed_btn.spec_tick(now, seen);
        let q = spec_push_if(q, clicked, Oper::SeedClick);
        let (length, x) = self.length.spec_tick(seen);
        let q = spec_push_if(q, x != 0, Oper::Length(x));
        let (length_btn, clicked) = self.length_btn.spec_tick(now, seen);
        let q = spec_push_if(q, clicked, Oper::LengthClick);
        let (t0, q) = self.tracks[0].spec_tick(0, now, seen, q);
        let (t1, q) = self.tracks[1].spec_tick(1, now, seen, q);
        let (t2, q) = self.tracks[2].spec_tick(2, now, seen, q);
        let (t3, q) = self.tracks[3].spec_tick(3, now, seen, q);
        let tracks = self.tracks;
        let tracks = vstd::array::spec_array_update(tracks, 0, t0);
        let tracks = vstd::array::spec_array_update(tracks, 1, t1);
        let tracks = vstd::array::spec_array_update(tracks, 2, t2);
        let tracks = vstd::array::spec_array_update(tracks, 3, t3);
        (Inputs { seed_btn, length, length_btn, tracks, ..self }, q)
    }

    /// The decoder after a pass, and the queue with what the pass means
    /// appended. The controls on the expanders are looked at only where
    /// `io_ext_change` says that a reading changed.
    pub open spec fn spec_tick(self, now: Time, seen: Captured, io_ext_change: bool, q: Seq<Oper>) -> (
        Inputs,
        Seq<Oper>,
    ) {
        let (lines, q) = self.spec_tick_lines(now, seen, q);
        if io_ext_change {
            lines.spec_tick_expanders(now, seen, q)
        } else {
            (lines, q)
        }
    }

    /// Takes in the clock line, the reset line and the seed knob: see
    /// [`Inputs::spec_tick_lines`]. The queue needs room for what they
    /// append, which is at most three operations.
    pub fn tick_lines(&mut self, now: Time, todo: &mut OperQueue, seen: &Captured)
        requires
            old(self).wf(),
            now.in_range(),
            seen.wf(),
            old(self).spec_tick_lines(now, *seen, queued(*old(todo))).1.len() <= 64,
        ensures
            (*final(self), queued(*final(todo))) == old(self).spec_tick_lines(now, *seen, queued(*old(todo))),
            final(self).wf(),
            queued(*old(todo)).len() <= queued(*final(todo)).len() <= queued(*old(todo)).len() + 3,
            spec_all_wf(queued(*old(todo))) ==> spec_all_wf(queued(*final(todo))),
    {
        proof {
            reveal(Inputs::spec_tick_lines);
        }
        push_if(todo, seen.reset, Oper::Reset);
        match seen.clock {
            Some(at) => {
                match self.clock_last {
                    Some(last) => {
                        push_if(todo, true, Oper::Tick(at.since(last)));
                    },
                    None => {},
                }
                self.clock_last = Some(at);
            },
            None => {},
        }
        let x = self.seed.tick(now, seen);
        push_if(todo, x != 0, Oper::Seed(x));
    }

    /// Takes in the controls on the expanders: see
    /// [`Inputs::spec_tick_expanders`]. The queue needs room for what they
    /// append, which is at most nineteen operations.
    pub fn tick_expanders(&mut self, now: Time, todo: &mut OperQueue, seen: &Captured)
        requires
            old(self).wf(),
            now.in_range(),
            old(self).spec_tick_expanders(now, *seen, queued(*old(todo))).1.len() <= 64,
        ensures
            (*final(self), queued(*final(todo))) == old(self).spec_tick_expanders(
                now,
                *seen,
                queued(*old(todo)),
            ),
            final(self).wf(),
            queued(*old(todo)).len() <= queued(*final(todo)).len() <= queued(*old(todo)).len() + 19,
            spec_all_wf(queued(*old(todo))) ==> spec_all_wf(queued(*final(todo))),
    {
        broadcast use vstd::array::group_array_axioms;

        proof {
            reveal(Inputs::spec_tick_expanders);
            let q = queued(*todo);
            let q = spec_push_if(q, self.seed_btn.spec_tick(now, *seen).1, Oper::SeedClick);
            let x = self.length.spec_tick(*seen).1;
            let q = spec_push_if(q, x != 0, Oper::Length(x));
            let q0 = spec_push_if(q, self.length_btn.spec_tick(now, *seen).1, Oper::LengthClick);
            let q1 = self.tracks[0].spec_tick(0, now, *seen, q0).1;
            let q2 = self.tracks[1].spec_tick(1, now, *seen, q1).1;
            let q3 = self.tracks[2].spec_tick(2, now, *seen, q2).1;
            lemma_track_appends(self.tracks[0], 0, now, *seen, q0);
            lemma_track_appends(self.tracks[1], 1, now, *seen, q1);
            lemma_track_appends(self.tracks[2], 2, now, *seen, q2);
            lemma_track_appends(self.tracks[3], 3, now, *seen, q3);
        }
        let clicked = self.seed_btn.tick(now, seen);
        push_if(todo, clicked, Oper::SeedClick);
        let x = self.length.tick(seen);
        push_if(todo, x != 0, Oper::Length(x));
        let clicked = self.length_btn.tick(now, seen);
        push_if(todo, clicked, Oper::LengthClick);

        let mut t0 = self.tracks[0];
        t0.tick(0, now, seen, todo);
        let mut t1 = self.tracks[1];
        t1.tick(1, now, seen, todo);
        let mut t2 = self.tracks[2];
        t2.tick(2, now, seen, todo);
        let mut t3 = self.tracks[3];
        t3.tick(3, now, seen, todo);
        self.tracks = [t0, t1, t2, t3];
        proof {
            let (after, q) = old(self).spec_tick_expanders(now, *seen, queued(*old(todo)));
            assert(self.tracks =~= after.tracks);
        }
    }

    /// Decodes one pass and appends the operations it means to `todo`: see
    /// [`Inputs::spec_tick`]. The queue needs room for what the pass
    /// appends, which is at most [`PASS_MAX`] operations (see
    /// [`law_pass_appends`]).
    pub fn tick(&mut self, now: Time, todo: &mut OperQueue, seen: &Captured, io_ext_change: bool)
        requires
            old(self).wf(),
            now.in_range(),
            seen.wf(),
            old(self).spec_tick(now, *seen, io_ext_change, queued(*old(todo))).1.len() <= 64,
        ensures
            (*final(self), queued(*final(todo))) == old(self).spec_tick(
                now,
                *seen,
                io_ext_change,
                queued(*old(todo)),
            ),
            final(self).wf(),
            queued(*old(todo)).len() <= queued(*final(todo)).len() <= queued(*old(todo)).len() + PASS_MAX,
            spec_all_wf(queued(*old(todo))) ==> spec_all_wf(queued(*final(todo))),
    {
        proof {
            let (lines, q) = self.spec_tick_lines(now, *seen, queued(*todo));
            lemma_lines_append(*self, now, *seen, queued(*todo));
            lemma_expanders_append(lines, now, *seen, q);
        }
        self.tick_lines(now, todo, seen);
        if io_ext_change {
            self.tick_expanders(now, todo, seen);
        }
    }
}

/// The controls of a track append at most four operations, and take none
/// away.
pub proof fn lemma_track_appends(t: TrackInputs, tr: usize, now: Time, seen: Captured, q: Seq<Oper>)
    ensures
        q.len() <= t.spec_tick(tr, now, seen, q).1.len() <= q.len() + 4,
{
    reveal(TrackInputs::spec_tick);
}

/// Clock, reset and seed append at most three operations, and take none
/// away.
pub proof fn lemma_lines_append(inputs: Inputs, now: Time, seen: Captured, q: Seq<Oper>)
    ensures
        q.len() <= inputs.spec_tick_lines(now, seen, q).1.len() <= q.len() + 3,
{
    reveal(Inputs::spec_tick_lines);
}

/// The controls on the expanders append at most nineteen operations, and
/// take none away.
pub proof fn lemma_expanders_append(inputs: Inputs, now: Time, seen: Captured, q: Seq<Oper>)
    ensures
        q.len() <= inputs.spec_tick_expanders(now, seen, q).1.len() <= q.len() + 19,
{
    reveal(Inputs::spec_tick_expanders);
    let (seed_btn, clicked) = inputs.seed_btn.spec_tick(now, seen);
    let q0 = spec_push_if(q, clicked, Oper::SeedClick);
    let (length, x) = inputs.length.spec_tick(seen);
    let q0 = spec_push_if(q0, x != 0, Oper::Length(x));
    let (length_btn, clicked) = inputs.length_btn.spec_tick(now, seen);
    let q0 = spec_push_if(q0, clicked, Oper::LengthClick);
    let (t0, q1) = inputs.tracks[0].spec_tick(0, now, seen, q0);
    let (t1, q2) = inputs.tracks[1].spec_tick(1, now, seen, q1);
    let (t2, q3) = inputs.tracks[2].spec_tick(2, now, seen, q2);
    lemma_track_appends(inputs.tracks[0], 0, now, seen, q0);
    lemma_track_appends(inputs.tracks[1], 1, now, seen, q1);
    lemma_track_appends(inputs.tracks[2], 2, now, seen, q2);
    lemma_track_appends(inputs.tracks[3], 3, now, seen, q3);
}

/// A pass appends at most [`PASS_MAX`] operations and takes none away: a
/// queue with room for that many can take any pass.
pub proof fn law_pass_appends(inputs: Inputs, now: Time, seen: Captured, io_ext_change: bool, q: Seq<Oper>)
    ensures
        q.len() <= inputs.spec_tick(now, seen, io_ext_change, q).1.len() <= q.len() + PASS_MAX,
{
    let (lines, q1) = inputs.spec_tick_lines(now, seen, q);
    lemma_lines_append(inputs, now, seen, q);
    lemma_expanders_append(lines, now, seen, q1);
}

/// The turns of the length knob among the operations of a queue, in their
/// order.
pub open spec fn spec_length_turns(q: Seq<Oper>) -> Seq<i8>
    decreases q.len(),
{
    if q.len() == 0 {
        Seq::empty()
    } else {
        let before = spec_length_turns(q.drop_last());
        match q.last() {
            Oper::Length(x) => before.push(x),
            _ => before,
        }
    }
}

/// An operation appended adds its turn of the length knob, if it is one.
pub proof fn lemma_turns_push_if(q: Seq<Oper>, cond: bool, oper: Oper)
    ensures
        spec_length_turns(spec_push_if(q, cond, oper)) == (match oper {
            Oper::Length(x) => if cond {
                spec_length_turns(q).push(x)
            } else {
                spec_length_turns(q)
            },
            _ => spec_length_turns(q),
        }),
{
    if cond {
        assert(q.push(oper).drop_last() =~= q);
    }
}

/// The controls of a track append no turn of the length knob.
pub proof fn lemma_track_keeps_turns(t: TrackInputs, tr: usize, now: Time, seen: Captured, q: Seq<Oper>)
    ensures
        spec_length_turns(t.spec_tick(tr, now, seen, q).1) == spec_length_turns(q),
{
    reveal(TrackInputs::spec_tick);
    let (offs, x) = t.offs.spec_tick(seen);
    let q1 = spec_push_if(q, x != 0, Oper::Offset(tr, x));
    lemma_turns_push_if(q, x != 0, Oper::Offset(tr, x));
    let (offs_btn, clicked) = t.offs_btn.spec_tick(now, seen);
    let q2 = spec_push_if(q1, clicked, Oper::OffsetClick(tr));
    lemma_turns_push_if(q1, clicked, Oper::OffsetClick(tr));
    let (step, y) = t.step.spec_tick(seen);
    let q3 = spec_push_if(q2, y != 0, Oper::Steps(tr, y));
    lemma_turns_push_if(q2, y != 0, Oper::Steps(tr, y));
    let (step_btn, clicked2) = t.step_btn.spec_tick(now, seen);
    lemma_turns_push_if(q3, clicked2, Oper::StepsClick(tr));
}

/// Of a pass in which a reading changed, the turns of the length knob that
/// are appended are the step that the knob's decoder emits, if it emits
/// one, and the knob is left as its decoder leaves it.
pub proof fn law_length_turns_of_a_pass(inputs: Inputs, now: Time, seen: Captured, q: Seq<Oper>)
    ensures
        ({
            let (after, appended) = inputs.spec_tick(now, seen, true, q);
            let (knob, d) = inputs.length.spec_tick(seen);
            &&& after.length == knob
            &&& spec_length_turns(appended) == (if d != 0 {
                spec_length_turns(q).push(d)
            } else {
                spec_length_turns(q)
            })
        }),
{
    reveal(Inputs::spec_tick_lines);
    reveal(Inputs::spec_tick_expanders);
    let q0 = spec_push_if(q, seen.reset, Oper::Reset);
    lemma_turns_push_if(q, seen.reset, Oper::Reset);
    let tick = Oper::Tick(Time { count: (seen.clock->0.count - inputs.clock_last->0.count) as i64 });
    let q1 = spec_push_if(q0, seen.clock is Some && inputs.clock_last is Some, tick);
    lemma_turns_push_if(q0, seen.clock is Some && inputs.clock_last is Some, tick);
    let (seed, x) = inputs.seed.spec_tick(now, seen);
    let q2 = spec_push_if(q1, x != 0, Oper::Seed(x));
    lemma_turns_push_if(q1, x != 0, Oper::Seed(x));
    let (lines, ql) = inputs.spec_tick_lines(now, seen, q);
    assert(ql == q2);
    let (seed_btn, clicked) = lines.seed_btn.spec_tick(now, seen);
    let q3 = spec_push_if(q2, clicked, Oper::SeedClick);
    lemma_turns_push_if(q2, clicked, Oper::SeedClick);
    let (length, d) = lines.length.spec_tick(seen);
    let q4 = spec_push_if(q3, d != 0, Oper::Length(d));
    lemma_turns_push_if(q3, d != 0, Oper::Length(d));
    let (length_btn, clicked2) = lines.length_btn.spec_tick(now, seen);
    let q5 = spec_push_if(q4, clicked2, Oper::LengthClick);
    lemma_turns_push_if(q4, clicked2, Oper::LengthClick);
    let (t0, q6) = lines.tracks[0].spec_tick(0, now, seen, q5);
    let (t1, q7) = lines.tracks[1].spec_tick(1, now, seen, q6);
    let (t2, q8) = lines.tracks[2].spec_tick(2, now, seen, q7);
    lemma_track_keeps_turns(lines.tracks[0], 0, now, seen, q5);
    lemma_track_keeps_turns(lines.tracks[1], 1, now, seen, q6);
    lemma_track_keeps_turns(lines.tracks[2], 2, now, seen, q7);
    lemma_track_keeps_turns(lines.tracks[3], 3, now, seen, q8);
}

impl Inputs {
    /// The decoder and the queue after a run of passes, each with its time
    /// and with what was captured for it, and each with a reading that
    /// changed.
    pub open spec fn spec_run(self, passes: Seq<(Time, Captured)>, q: Seq<Oper>) -> (Inputs, Seq<Oper>)
        decreases passes.len(),
    {
        if passes.len() == 0 {
            (self, q)
        } else {
            let (before, appended) = self.spec_run(passes.drop_last(), q);
            before.spec_tick(passes.last().0, passes.last().1, true, appended)
        }
    }
}

/// Level of phase line A at sample `j` of a clockwise turn that starts at
/// rest: high at the first and second sample of every step.
pub open spec fn spec_clockwise_a(j: int) -> bool {
    j % 4 == 0 || j % 4 == 1
}

/// Level of phase line B at sample `j` of a clockwise turn that starts at
/// rest: high at the second and third sample of every step.
pub open spec fn spec_clockwise_b(j: int) -> bool {
    j % 4 == 1 || j % 4 == 2
}

/// The length knob reads the samples of a clockwise turn, one in each pass.
pub open spec fn spec_turns_clockwise(knob: Knob, passes: Seq<(Time, Captured)>) -> bool {
    forall|j: int|
        0 <= j < passes.len() ==> knob.spec_a((#[trigger] passes[j]).1) == spec_clockwise_a(j) && knob.spec_b(
            passes[j].1,
        ) == spec_clockwise_b(j)
}

/// After any number of passes of a clockwise turn of the length knob from
/// rest, the turns appended are one +1 for every second sample of a step
/// that was passed, the knob holds the last sample, and it holds the first
/// transition of a step where that was the last sample.
pub proof fn lemma_clockwise_passes(inputs: Inputs, passes: Seq<(Time, Captured)>, q: Seq<Oper>)
    requires
        inputs.length.encoder.prev_next % 4 == 0,
        spec_turns_clockwise(inputs.length, passes),
    ensures
        ({
            let n = passes.len() as int;
            let (after, appended) = inputs.spec_run(passes, q);
            &&& after.length.expander == inputs.length.expander
            &&& after.length.mask_a == inputs.length.mask_a
            &&& after.length.mask_b == inputs.length.mask_b
            &&& after.length.encoder.prev_next % 4 == spec_pair(spec_clockwise_a(n - 1), spec_clockwise_b(n - 1))
            &&& n % 4 == 1 ==> after.length.encoder.state % 16 == 1
            &&& spec_length_turns(appended) == spec_length_turns(q) + Seq::new(((n + 2) / 4) as nat, |i: int| 1i8)
        }),
    decreases passes.len(),
{
    let n = passes.len() as int;
    if n == 0 {
        assert(spec_length_turns(q) + Seq::new(0nat, |i: int| 1i8) =~= spec_length_turns(q));
    } else {
        let earlier = passes.drop_last();
        assert forall|j: int| 0 <= j < earlier.len() implies inputs.length.spec_a((#[trigger] earlier[j]).1)
            == spec_clockwise_a(j) && inputs.length.spec_b(earlier[j].1) == spec_clockwise_b(j) by {
            assert(earlier[j] == passes[j]);
        }
        lemma_clockwise_passes(inputs, earlier, q);
        let (before, mid) = inputs.spec_run(earlier, q);
        let (now, seen) = passes.last();
        assert(passes[n - 1] == passes.last());
        law_length_turns_of_a_pass(before, now, seen, mid);
        let j = n - 1;
        let a = spec_clockwise_a(j);
        let b = spec_clockwise_b(j);
        assert(before.length.spec_a(seen) == a && before.length.spec_b(seen) == b);
        let (encoder, d) = before.length.encoder.spec_tick(a, b);
        let ones_before = Seq::new(((j + 2) / 4) as nat, |i: int| 1i8);
        let ones_after = Seq::new(((n + 2) / 4) as nat, |i: int| 1i8);
        if j % 4 == 1 {
            assert(d == 1);
            assert(ones_after =~= ones_before.push(1i8));
            assert((spec_length_turns(q) + ones_before).push(1i8) =~= spec_length_turns(q) + ones_after);
        } else {
            assert(d == 0);
            assert(ones_after =~= ones_before);
        }
    }
}

/// A clockwise turn of the length knob from rest through `k` full steps,
/// one sample in each pass, appends exactly `k` turns of the length knob,
/// each of them +1, whatever the other controls do meanwhile, and leaves
/// the knob at rest.
pub proof fn law_clockwise_run(inputs: Inputs, passes: Seq<(Time, Captured)>, q: Seq<Oper>, k: nat)
    requires
        inputs.length.encoder.prev_next % 4 == 0,
        passes.len() == 4 * k,
        spec_turns_clockwise(inputs.length, passes),
    ensures
        spec_length_turns(inputs.spec_run(passes, q).1) == spec_length_turns(q) + Seq::new(k, |i: int| 1i8),
        inputs.spec_run(passes, q).0.length.encoder.prev_next % 4 == 0,
{
    lemma_clockwise_passes(inputs, passes, q);
    assert((4 * k + 2) / 4 == k);
}

} // verus!
