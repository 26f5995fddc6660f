//! Gate outputs: pulses whose width is a share of the predicted
//! interval between clock ticks.

use vstd::prelude::*;
use crate::clock::Time;
use crate::state::State;

verus! {

/// The levels a line was driven to, oldest first.
pub type Driven = Seq<bool>;

/// A digital output line.
pub trait HiLo {
    /// The levels the line was driven to. This is a ghost of the line and
    /// never run: a line outside verified code gives it a body that only
    /// panics, and nothing is known of its value but what
    /// [`HiLo::set_hilo`] promises.
    spec fn driven(&self) -> Driven;

    /// Drives the line high (`true`) or low (`false`).
    fn set_hilo(&mut self, hi: bool)
        ensures
            final(self).driven() == old(self).driven().push(hi),
    ;
}

/// What to do with a gate.
#[derive(Clone, Copy, Debug, PartialEq, Eq, Structural)]
pub enum GateSet {
    /// Leave a gate as it is, but end its pulse when the pulse's time is
    /// up.
    Retain,
    /// Start a pulse.
    Pulse,
    /// End the pulse at once.
    Clear,
}

impl GateSet {
    /// The command for a step of a pattern: a pulse for a step that is on.
    pub open spec fn spec_from(x: u8) -> GateSet {
        if x == 0 {
            GateSet::Clear
        } else {
            GateSet::Pulse
        }
    }

    /// The command for a step of a pattern: a pulse for a step that is on.
    pub fn from(x: u8) -> (set: GateSet)
        ensures
            set == GateSet::spec_from(x),
    {
        if x == 0 {
            GateSet::Clear
        } else {
            GateSet::Pulse
        }
    }
}

/// The width of a pulse: `duty_percent` hundredths of the predicted
/// interval, rounded towards zero.
pub open spec fn spec_duty_count(predicted: Time, duty_percent: i64) -> int {
    let scaled = predicted.count * duty_percent;
    if scaled >= 0 {
        scaled / 100
    } else {
        -((-scaled) / 100)
    }
}

/// When a gate's pulse ends and whether it is high, after a command
/// at `now`.
///
/// `Pulse` starts a pulse that ends the pulse's width after `now`. `Clear`
/// ends the pulse and forgets its end. `Retain` ends the pulse if its end
/// has come, and else changes nothing.
pub open spec fn spec_gate_tick(
    clear_at: Option<Time>,
    high: bool,
    duty_percent: i64,
    now: Time,
    set: GateSet,
    predicted: Time,
) -> (Option<Time>, bool) {
    match set {
        GateSet::Retain => {
            if clear_at is Some && now.count >= clear_at->0.count {
                (None, false)
            } else {
                (clear_at, high)
            }
        },
        GateSet::Pulse => (Some(Time { count: (now.count + spec_duty_count(predicted, duty_percent)) as i64 }), true),
        GateSet::Clear => (None, false),
    }
}

/// Whether a command drives the line, and to which level. The line is
/// inverted: high is off.
pub open spec fn spec_gate_drive(clear_at: Option<Time>, now: Time, set: GateSet) -> Option<bool> {
    match set {
        GateSet::Retain => {
            if clear_at is Some && now.count >= clear_at->0.count {
                Some(true)
            } else {
                None
            }
        },
        GateSet::Pulse => Some(false),
        GateSet::Clear => Some(true),
    }
}

/// The levels a line was driven to, after a command at `now`: one more
/// where the command drives the line, the same where it does not.
pub open spec fn spec_driven(driven: Seq<bool>, clear_at: Option<Time>, now: Time, set: GateSet) -> Seq<bool> {
    match spec_gate_drive(clear_at, now, set) {
        Some(level) => driven.push(level),
        None => driven,
    }
}

/// One gate output.
pub struct Gate<H> {
    pub pin: H,
    /// Width of the pulse in hundredths of the predicted interval.
    pub duty_percent: i64,
    /// When the pulse ends; none while no pulse is on.
    pub clear_at: Option<Time>,
    pub high: bool,
}

impl<H: HiLo> Gate<H> {
    pub open spec fn wf(self) -> bool {
        0 <= self.duty_percent <= 255
    }

    /// A gate that is low.
    pub fn new(pin: H, duty_percent: u8) -> (gate: Gate<H>)
        ensures
            gate.wf(),
            gate.pin == pin,
            gate.duty_percent == duty_percent,
            gate.clear_at is None,
            !gate.high,
    {
        Gate { pin, duty_percent: duty_percent as i64, clear_at: None, high: false }
    }

    pub fn is_high(&self) -> (high: bool)
        ensures
            high == self.high,
    {
        self.high
    }

    /// Carries out a command at `now`: see [`spec_gate_tick`]. `predicted`
    /// is the predicted interval to the next clock tick. The line is driven
    /// once, to the level that [`spec_gate_drive`] gives, and not touched
    /// where it gives none.
    pub fn tick(&mut self, now: Time, set: GateSet, predicted: &Time)
        requires
            old(self).wf(),
            now.in_range(),
            predicted.is_interval(),
        ensures
            (final(self).clear_at, final(self).high) == spec_gate_tick(
                old(self).clear_at,
                old(self).high,
                old(self).duty_percent,
                now,
                set,
                *predicted,
            ),
            final(self).duty_percent == old(self).duty_percent,
            spec_gate_drive(old(self).clear_at, now, set) is None ==> final(self).pin == old(self).pin,
            final(self).pin.driven() == spec_driven(old(self).pin.driven(), old(self).clear_at, now, set),
            final(self).wf(),
    {
        match set {
            GateSet::Retain => {
                match self.clear_at {
                    Some(clear_at) => {
                        if now.count >= clear_at.count {
                            self.clear_at = None;
                            self.pin.set_hilo(true);
                            self.high = false;
                        }
                    },
                    None => {},
                }
            },
            GateSet::Pulse => {
                self.pin.set_hilo(false);
                self.high = true;
                let p: i64 = predicted.count;
                let d: i64 = self.duty_percent;
                assert(-0x0040_0000_0000_0000 * 255 <= p * d <= 0x0040_0000_0000_0000 * 255) by (nonlinear_arith)
                    requires
                        -0x0040_0000_0000_0000 <= p <= 0x0040_0000_0000_0000,
                        0 <= d <= 255,
                ;
                let duty_count: i64 = (p * d) / 100;
                self.clear_at = Some(Time { count: now.count + duty_count });
            },
            GateSet::Clear => {
                self.pin.set_hilo(true);
                self.high = false;
                self.clear_at = None;
            },
        }
    }
}

/// The four gate outputs.
pub struct Outputs<P1, P2, P3, P4> {
    /// The playhead at which the gates were last commanded.
    pub playhead_last: usize,
    pub gate1: Gate<P1>,
    pub gate2: Gate<P2>,
    pub gate3: Gate<P3>,
    pub gate4: Gate<P4>,
}

/// The command for track `i`.
///
/// Where the playhead has moved since the gates were last commanded, a
/// track that is not muted starts a pulse if its pattern is on at its
/// playhead, and ends it if not. Everything else retains.
pub open spec fn spec_command(state: State, playhead_last: usize, i: int) -> GateSet {
    if state.spec_playhead() != playhead_last && !state.mute[i] {
        GateSet::spec_from(state.patterns[i][state.track_playhead[i] as int])
    } else {
        GateSet::Retain
    }
}

/// The command for track `i`.
pub fn command(state: &State, playhead_last: usize, i: usize) -> (set: GateSet)
    requires
        state.wf(),
        i < 4,
    ensures
        set == spec_command(*state, playhead_last, i as int),
{
    if state.playhead() != playhead_last && !state.mute[i] {
        GateSet::from(state.patterns[i][state.track_playhead[i]])
    } else {
        GateSet::Retain
    }
}

impl<P1: HiLo, P2: HiLo, P3: HiLo, P4: HiLo> Outputs<P1, P2, P3, P4> {
    pub open spec fn wf(self) -> bool {
        self.gate1.wf() && self.gate2.wf() && self.gate3.wf() && self.gate4.wf()
    }

    /// Four gates that have been commanded at playhead zero.
    pub fn new(gate1: Gate<P1>, gate2: Gate<P2>, gate3: Gate<P3>, gate4: Gate<P4>) -> (out: Outputs<P1, P2, P3, P4>)
        requires
            gate1.wf(),
            gate2.wf(),
            gate3.wf(),
            gate4.wf(),
        ensures
            out.wf(),
            out.playhead_last == 0,
            out.gate1 == gate1,
            out.gate2 == gate2,
            out.gate3 == gate3,
            out.gate4 == gate4,
    {
        Outputs { playhead_last: 0, gate1, gate2, gate3, gate4 }
    }

    /// Commands the four gates at `now`, each by [`spec_command`], and
    /// remembers the playhead.
    pub fn tick(&mut self, now: Time, state: &State)
        requires
            old(self).wf(),
            state.wf(),
            now.in_range(),
        ensures
            final(self).wf(),
            final(self).playhead_last == state.spec_playhead(),
            (final(self).gate1.clear_at, final(self).gate1.high) == spec_gate_tick(
                old(self).gate1.clear_at,
                old(self).gate1.high,
                old(self).gate1.duty_percent,
                now,
                spec_command(*state, old(self).playhead_last, 0),
                state.predicted,
            ),
            (final(self).gate2.clear_at, final(self).gate2.high) == spec_gate_tick(
                old(self).gate2.clear_at,
                old(self).gate2.high,
                old(self).gate2.duty_percent,
                now,
                spec_command(*state, old(self).playhead_last, 1),
                state.predicted,
            ),
            (final(self).gate3.clear_at, final(self).gate3.high) == spec_gate_tick(
                old(self).gate3.clear_at,
                old(self).gate3.high,
                old(self).gate3.duty_percent,
                now,
                spec_command(*state, old(self).playhead_last, 2),
                state.predicted,
            ),
            (final(self).gate4.clear_at, final(self).gate4.high) == spec_gate_tick(
                old(self).gate4.clear_at,
                old(self).gate4.high,
                old(self).gate4.duty_percent,
                now,
                spec_command(*state, old(self).playhead_last, 3),
                state.predicted,
            ),
            final(self).gate1.duty_percent == old(self).gate1.duty_percent,
            final(self).gate2.duty_percent == old(self).gate2.duty_percent,
            final(self).gate3.duty_percent == old(self).gate3.duty_percent,
            final(self).gate4.duty_percent == old(self).gate4.duty_percent,
            final(self).gate1.pin.driven() == spec_driven(
                old(self).gate1.pin.driven(),
                old(self).gate1.clear_at,
                now,
                spec_command(*state, old(self).playhead_last, 0),
            ),
            final(self).gate2.pin.driven() == spec_driven(
                old(self).gate2.pin.driven(),
                old(self).gate2.clear_at,
                now,
                spec_command(*state, old(self).playhead_last, 1),
            ),
            final(self).gate3.pin.driven() == spec_driven(
                old(self).gate3.pin.driven(),
                old(self).gate3.clear_at,
                now,
                spec_command(*state, old(self).playhead_last, 2),
            ),
            final(self).gate4.pin.driven() == spec_driven(
                old(self).gate4.pin.driven(),
                old(self).gate4.clear_at,
                now,
                spec_command(*state, old(self).playhead_last, 3),
            ),
    {
        let last = self.playhead_last;
        let g1 = command(state, last, 0);
        let g2 = command(state, last, 1);
        let g3 = command(state, last, 2);
        let g4 = command(state, last, 3);
        self.playhead_last = state.playhead();
        self.gate1.tick(now, g1, &state.predicted);
        self.gate2.tick(now, g2, &state.predicted);
        self.gate3.tick(now, g3, &state.predicted);
        self.gate4.tick(now, g4, &state.predicted);
    }
}

/// A pulse stays on under `Retain` until its end has come. From then on
/// the first `Retain` ends it and drives the line, and every further
/// `Retain` changes and drives nothing.
pub proof fn law_pulse_ends_once(
    clear_at: Option<Time>,
    high: bool,
    duty_percent: i64,
    now: Time,
    predicted: Time,
    later: Time,
    last: Time,
)
    ensures
        ({
            let (end, on) = spec_gate_tick(clear_at, high, duty_percent, now, GateSet::Pulse, predicted);
            let (end1, on1) = spec_gate_tick(end, on, duty_percent, later, GateSet::Retain, predicted);
            let (end2, on2) = spec_gate_tick(end1, on1, duty_percent, last, GateSet::Retain, predicted);
            &&& on
            &&& end is Some
            &&& later.count < end->0.count ==> end1 == end && on1 && spec_gate_drive(end, later, GateSet::Retain)
                is None
            &&& later.count >= end->0.count ==> end1 is None && !on1 && spec_gate_drive(
                end,
                later,
                GateSet::Retain,
            ) == Some(true) && end2 is None && !on2 && spec_gate_drive(end1, last, GateSet::Retain) is None
        }),
{
}

} // verus!
