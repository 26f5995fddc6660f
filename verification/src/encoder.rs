//! Rotary encoders: quadrature decoding and acceleration.
//!
//! An encoder has two phase lines. Their levels are sampled as a pair, with
//! line A as bit 0 and line B as bit 1. The pair before and the pair now
//! form a 4-bit nibble, which the decode table maps to a quarter step
//! clockwise (+1), a quarter step counter-clockwise (-1), or nothing.

use vstd::prelude::*;
use crate::clock::Time;

verus! {

/// The two nibbles that end a clockwise step: rest to A, then A to both.
pub const CLOCKWISE: u8 = 0x17;

/// The two nibbles that end a counter-clockwise step: rest to B, then B to
/// both.
pub const COUNTER_CLOCKWISE: u8 = 0x2b;

/// The decode table: the direction of the transition that a nibble stands
/// for, or zero for no change and for a jump of both lines at once.
pub open spec fn spec_table(nibble: int) -> int {
    if nibble == 1 || nibble == 7 || nibble == 8 || nibble == 14 {
        1
    } else if nibble == 2 || nibble == 4 || nibble == 11 || nibble == 13 {
        -1
    } else {
        0
    }
}

/// How many of the nibbles below `upto` the table maps to `direction`.
pub open spec fn spec_count(direction: int, upto: int) -> int
    decreases upto,
{
    if upto <= 0 {
        0
    } else {
        spec_count(direction, upto - 1) + if spec_table(upto - 1) == direction {
            1int
        } else {
            0int
        }
    }
}

/// The pair of levels as a number: line A is bit 0, line B is bit 1.
pub open spec fn spec_pair(a: bool, b: bool) -> int {
    (if a {
        1int
    } else {
        0int
    }) + (if b {
        2int
    } else {
        0int
    })
}

/// The decode table.
pub fn table(nibble: u8) -> (d: i8)
    ensures
        d == spec_table(nibble as int),
        -1 <= d <= 1,
{
    if nibble == 1 || nibble == 7 || nibble == 8 || nibble == 14 {
        1
    } else if nibble == 2 || nibble == 4 || nibble == 11 || nibble == 13 {
        -1
    } else {
        0
    }
}

/// Of the sixteen nibbles the table maps four to +1, four to -1 and the
/// other eight to zero.
pub proof fn law_table_counts()
    ensures
        forall|n: int| 0 <= n < 16 ==> -1 <= #[trigger] spec_table(n) <= 1,
        spec_count(1, 16) == 4,
        spec_count(-1, 16) == 4,
        spec_count(0, 16) == 8,
{
    reveal_with_fuel(spec_count, 17);
}

/// Decoder of one encoder.
#[derive(Clone, Copy, Debug, PartialEq, Eq, Structural)]
pub struct Encoder {
    /// The pair sampled last, in the two lowest bits.
    pub prev_next: u8,
    /// The last two nibbles that stood for a transition, the newer one in
    /// the low half.
    pub state: u8,
}

impl Encoder {
    /// The nibble that the pair `(a, b)` forms with the pair sampled last.
    pub open spec fn spec_nibble(self, a: bool, b: bool) -> int {
        (self.prev_next as int % 4) * 4 + spec_pair(a, b)
    }

    /// The decoder after the sample `(a, b)`, and the step it emits.
    ///
    /// A nibble that stands for a transition is appended to the state. A
    /// step is emitted where the state then equals one of the two
    /// sentinels.
    pub open spec fn spec_tick(self, a: bool, b: bool) -> (Encoder, i8) {
        let nibble = self.spec_nibble(a, b);
        if spec_table(nibble) != 0 {
            let state = (self.state as int % 16) * 16 + nibble;
            (
                Encoder { prev_next: nibble as u8, state: state as u8 },
                if state == CLOCKWISE {
                    1i8
                } else if state == COUNTER_CLOCKWISE {
                    -1i8
                } else {
                    0i8
                },
            )
        } else {
            (Encoder { prev_next: nibble as u8, state: self.state }, 0i8)
        }
    }

    /// A decoder that has seen both lines low.
    pub fn new() -> (e: Encoder)
        ensures
            e.prev_next == 0,
            e.state == 0,
    {
        Encoder { prev_next: 0, state: 0 }
    }

    /// Takes in the sample `(a, b)`. Returns +1 where it completes a
    /// clockwise step, -1 where it completes a counter-clockwise step, else
    /// zero.
    pub fn tick(&mut self, a: bool, b: bool) -> (d: i8)
        ensures
            (*final(self), d) == old(self).spec_tick(a, b),
            -1 <= d <= 1,
            d != 0 ==> spec_table(old(self).spec_nibble(a, b)) == d && spec_table(old(self).state as int % 16)
                == d,
    {
        let pair: u8 = if a {
            1u8
        } else {
            0u8
        } + if b {
            2u8
        } else {
            0u8
        };
        let nibble: u8 = (self.prev_next % 4) * 4 + pair;
        self.prev_next = nibble;
        if table(nibble) != 0 {
            self.state = (self.state % 16) * 16 + nibble;
            if self.state == CLOCKWISE {
                return 1;
            }
            if self.state == COUNTER_CLOCKWISE {
                return -1;
            }
        }
        0
    }
}

/// From rest, the four samples of a clockwise step reach the clockwise
/// sentinel and emit +1 once, at the second, and the four samples of a
/// counter-clockwise step reach the other sentinel and emit -1 once, at the
/// second.
pub proof fn law_full_step(e: Encoder)
    requires
        e.prev_next % 4 == 0,
    ensures
        ({
            let (e1, d1) = e.spec_tick(true, false);
            let (e2, d2) = e1.spec_tick(true, true);
            let (e3, d3) = e2.spec_tick(false, true);
            let (e4, d4) = e3.spec_tick(false, false);
            d1 == 0 && d2 == 1 && e2.state == CLOCKWISE && d3 == 0 && d4 == 0 && e4.prev_next % 4 == 0
        }),
        ({
            let (e1, d1) = e.spec_tick(false, true);
            let (e2, d2) = e1.spec_tick(true, true);
            let (e3, d3) = e2.spec_tick(true, false);
            let (e4, d4) = e3.spec_tick(false, false);
            d1 == 0 && d2 == -1 && e2.state == COUNTER_CLOCKWISE && d3 == 0 && d4 == 0 && e4.prev_next % 4 == 0
        }),
{
}

/// A step is emitted only by two transitions in its own direction, one
/// after the other: a lone transition, a transition taken back, or a jump
/// of both lines emits nothing.
pub proof fn law_no_spurious_step(e: Encoder, a: bool, b: bool)
    ensures
        ({
            let (after, d) = e.spec_tick(a, b);
            let nibble = e.spec_nibble(a, b);
            &&& -1 <= d <= 1
            &&& d != 0 ==> spec_table(nibble) == d && spec_table(e.state as int % 16) == d
            &&& spec_table(nibble) == 0 ==> d == 0 && after.state == e.state
            &&& spec_table(nibble) != 0 && spec_table(e.state as int % 16) != spec_table(nibble) ==> d == 0
        }),
{
}

/// A sample that repeats the pair before it emits nothing and leaves the
/// state as it is.
pub proof fn law_steady_is_silent(e: Encoder, a: bool, b: bool)
    requires
        e.prev_next % 4 == spec_pair(a, b),
    ensures
        e.spec_tick(a, b).1 == 0,
        e.spec_tick(a, b).0.state == e.state,
{
}

/// One whole step, in the fixed point of speed and pool.
pub const ACCEL_ONE: u32 = 0x1_0000;

/// The unit of time of the speed: a millisecond, in clock counts.
pub const ACCEL_PERIOD: i64 = 600_000;

/// The speed loses this part of itself in every unit of time without a
/// step.
pub const ACCEL_DECAY: u32 = 256;

/// The speed that steps `dt` clock counts apart stand for, in steps per
/// unit of time: at most one step per unit.
pub open spec fn spec_measure(dt: int) -> u32 {
    if dt <= 0 || ACCEL_ONE * ACCEL_PERIOD / dt >= ACCEL_ONE {
        ACCEL_ONE
    } else {
        (ACCEL_ONE * ACCEL_PERIOD / dt) as u32
    }
}

/// The speed after one unit of time without a step.
pub open spec fn spec_decay(speed: u32) -> u32 {
    if speed == 0 {
        0
    } else if speed / ACCEL_DECAY == 0 {
        (speed - 1) as u32
    } else {
        (speed - speed / ACCEL_DECAY) as u32
    }
}

/// The speed that steps `dt` clock counts apart stand for.
pub fn measure(dt: i64) -> (speed: u32)
    ensures
        speed == spec_measure(dt as int),
        speed <= ACCEL_ONE,
{
    if dt <= 0 {
        ACCEL_ONE
    } else {
        let rate: i64 = 39_321_600_000 / dt;
        if rate >= ACCEL_ONE as i64 {
            ACCEL_ONE
        } else {
            rate as u32
        }
    }
}

/// The speed after one unit of time without a step.
pub fn decay(speed: u32) -> (slower: u32)
    ensures
        slower == spec_decay(speed),
        slower <= speed,
{
    if speed == 0 {
        0
    } else if speed / ACCEL_DECAY == 0 {
        speed - 1
    } else {
        speed - speed / ACCEL_DECAY
    }
}

/// An encoder whose steps come faster than its detents while it is spun.
///
/// Steps in one direction set a speed, the rate at which they follow each
/// other. While no step comes the speed decays geometrically, and in every
/// unit of time it is added to a pool of fractions of a step. Where the pool
/// overflows, a step of its own is emitted in the direction of the last
/// real one.
#[derive(Clone, Copy, Debug, PartialEq, Eq, Structural)]
pub struct EncoderAccelerator {
    pub encoder: Encoder,
    /// Direction of the last step; zero before the first.
    pub direction: i8,
    /// Time of the last step.
    pub stepped: Time,
    /// Steps per unit of time, in 16.16 fixed point.
    pub speed: u32,
    /// Fraction of a step, in 16.16 fixed point.
    pub pool: u32,
    /// When the speed last decayed.
    pub decayed: Time,
}

impl EncoderAccelerator {
    pub open spec fn wf(self) -> bool {
        &&& -1 <= self.direction <= 1
        &&& self.speed <= ACCEL_ONE
        &&& self.pool < ACCEL_ONE
        &&& self.stepped.in_range()
        &&& self.decayed.in_range()
    }

    /// The accelerator after the sample `(a, b)` at `now`, and the step it
    /// emits.
    pub open spec fn spec_tick(self, now: Time, a: bool, b: bool) -> (EncoderAccelerator, i8) {
        let (encoder, d) = self.encoder.spec_tick(a, b);
        if d != 0 {
            if d == self.direction {
                let measured = spec_measure(now.count - self.stepped.count);
                (
                    EncoderAccelerator {
                        encoder,
                        stepped: now,
                        decayed: now,
                        speed: if measured > self.speed {
                            measured
                        } else {
                            self.speed
                        },
                        ..self
                    },
                    d,
                )
            } else {
                (
                    EncoderAccelerator { encoder, direction: d, stepped: now, decayed: now, speed: 0, pool: 0 },
                    d,
                )
            }
        } else if self.speed > 0 && now.count - self.decayed.count >= ACCEL_PERIOD {
            let speed = spec_decay(self.speed);
            let filled = self.pool + speed;
            if filled >= ACCEL_ONE {
                (
                    EncoderAccelerator { encoder, decayed: now, speed, pool: (filled - ACCEL_ONE) as u32, ..self },
                    self.direction,
                )
            } else {
                (EncoderAccelerator { encoder, decayed: now, speed, pool: filled as u32, ..self }, 0i8)
            }
        } else {
            (EncoderAccelerator { encoder, ..self }, 0i8)
        }
    }

    /// An accelerator at rest around `encoder`.
    pub fn new(encoder: Encoder) -> (acc: EncoderAccelerator)
        ensures
            acc.wf(),
            acc == (EncoderAccelerator {
                encoder,
                direction: 0,
                stepped: Time { count: 0 },
                speed: 0,
                pool: 0,
                decayed: Time { count: 0 },
            }),
    {
        EncoderAccelerator {
            encoder,
            direction: 0,
            stepped: Time { count: 0 },
            speed: 0,
            pool: 0,
            decayed: Time { count: 0 },
        }
    }

    /// Takes in the sample `(a, b)` at `now`: see
    /// [`EncoderAccelerator::spec_tick`].
    pub fn tick(&mut self, now: Time, a: bool, b: bool) -> (d: i8)
        requires
            old(self).wf(),
            now.in_range(),
        ensures
            (*final(self), d) == old(self).spec_tick(now, a, b),
            final(self).wf(),
            -1 <= d <= 1,
    {
        let d = self.encoder.tick(a, b);
        if d != 0 {
            if d == self.direction {
                let measured = measure(now.count - self.stepped.count);
                if measured > self.speed {
                    self.speed = measured;
                }
            } else {
                self.direction = d;
                self.speed = 0;
                self.pool = 0;
            }
            self.stepped = now;
            self.decayed = now;
            return d;
        }
        if self.speed > 0 && now.count - self.decayed.count >= ACCEL_PERIOD {
            self.decayed = now;
            self.speed = decay(self.speed);
            let filled: u32 = self.pool + self.speed;
            if filled >= ACCEL_ONE {
                self.pool = filled - ACCEL_ONE;
                return self.direction;
            }
            self.pool = filled;
        }
        0
    }
}

} // verus!
