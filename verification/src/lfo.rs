//! 12-bit low-frequency oscillator with twelve waveform modes.
//!
//! The sine and triangle functions themselves are looked up outside this
//! library. An oscillator is handed their values at its phase, and at the
//! phases a quarter and half a period later, together with the phase itself.

use vstd::prelude::*;

verus! {

/// Largest value an oscillator emits.
pub const LEVEL_MAX: u16 = 4095;

/// Values of the sine and the triangle function, signed and at full 16-bit
/// scale, at one phase (see [`Waves::phases`]).
#[derive(Clone, Copy, Debug, PartialEq, Eq, Structural)]
pub struct Waves {
    /// Sine at the phase itself.
    pub sine: i16,
    /// Sine a quarter period later.
    pub sine90: i16,
    /// Sine half a period later.
    pub sine180: i16,
    /// Triangle at the phase itself.
    pub triangle: i16,
    /// Triangle a quarter period later.
    pub triangle90: i16,
    /// Triangle half a period later.
    pub triangle180: i16,
}

/// The phase a quarter period after `offset`, wrapping around.
pub open spec fn spec_quarter(offset: u32) -> u32 {
    ((offset + u32::MAX / 4) % 0x1_0000_0000) as u32
}

/// The phase half a period after `offset`, wrapping around.
pub open spec fn spec_half(offset: u32) -> u32 {
    ((offset + u32::MAX / 2) % 0x1_0000_0000) as u32
}

/// The phase a quarter period after `offset`, wrapping around.
pub fn quarter(offset: u32) -> (p: u32)
    ensures
        p == spec_quarter(offset),
{
    offset.wrapping_add(u32::MAX / 4)
}

/// The phase half a period after `offset`, wrapping around.
pub fn half(offset: u32) -> (p: u32)
    ensures
        p == spec_half(offset),
{
    offset.wrapping_add(u32::MAX / 2)
}

impl Waves {
    /// All values zero.
    pub fn flat() -> (w: Waves)
        ensures
            w == (Waves { sine: 0, sine90: 0, sine180: 0, triangle: 0, triangle90: 0, triangle180: 0 }),
    {
        Waves { sine: 0, sine90: 0, sine180: 0, triangle: 0, triangle90: 0, triangle180: 0 }
    }

    /// The three phases at which the values of a `Waves` for `offset` are
    /// taken: the phase itself, a quarter period later, half a period later.
    pub fn phases(offset: u32) -> (p: [u32; 3])
        ensures
            p[0] == offset,
            p[1] == spec_quarter(offset),
            p[2] == spec_half(offset),
    {
        [offset, quarter(offset), half(offset)]
    }
}

/// Waveform of an oscillator.
#[derive(Clone, Copy, Debug, PartialEq, Eq, Structural)]
pub enum Mode {
    Random,
    SawUp,
    SawDown,
    Sine,
    Sine90,
    Sine180,
    Triangle,
    Triangle90,
    Triangle180,
    Square,
    Square90,
    Square180,
}

/// Sawtooth: the twelve highest bits of the phase.
pub open spec fn spec_saw_12(offset: u32) -> u16 {
    (offset / 0x10_0000) as u16
}

/// Square: full level in the first half of the period, zero in the second.
pub open spec fn spec_sqr_12(offset: u32) -> u16 {
    if offset < u32::MAX / 2 {
        0xfff
    } else {
        0
    }
}

/// A signed 16-bit wave value shifted to unsigned and cut to twelve bits.
pub open spec fn spec_wave_12(raw: i16) -> u16 {
    ((0x8000 + raw) / 16) as u16
}

/// Position in the random table that a phase selects on a track of `length`
/// steps.
pub open spec fn spec_slot(offset: u32, length: u8) -> int {
    offset as int / (u32::MAX as int / (length as int - 1))
}

/// Dividing a 32-bit value by the `k`-th part of the 32-bit range gives at
/// most `k`.
pub proof fn lemma_quotient_bound(y: u32, k: int)
    requires
        1 <= k <= 255,
    ensures
        u32::MAX as int / k >= 1,
        0 <= y as int / (u32::MAX as int / k) <= k,
{
    let q: int = u32::MAX as int / k;
    assert(q * k <= u32::MAX && u32::MAX < q * k + k && q >= 16843009) by (nonlinear_arith)
        requires
            1 <= k <= 255,
            q == 0xffff_ffffint / k,
    ;
    let x: int = y as int / q;
    assert(0 <= x && x * q <= y) by (nonlinear_arith)
        requires
            q > 0,
            y >= 0,
            x == y as int / q,
    ;
    assert(x <= k) by (nonlinear_arith)
        requires
            x * q <= y,
            y <= 0xffff_ffff,
            0xffff_ffff < q * k + k,
            q >= 16843009,
            1 <= k <= 255,
            0 <= x,
    ;
}

/// A phase selects a position before the end of its track.
pub proof fn lemma_slot_bound(offset: u32, length: u8)
    requires
        2 <= length,
    ensures
        0 <= spec_slot(offset, length) <= length - 1,
{
    lemma_quotient_bound(offset, length as int - 1);
}

pub fn saw_12(offset: u32) -> (n: u16)
    ensures
        n == spec_saw_12(offset),
        n <= LEVEL_MAX,
{
    let n: u32 = offset / 0x10_0000;
    n as u16
}

pub fn sqr_12(offset: u32) -> (n: u16)
    ensures
        n == spec_sqr_12(offset),
        n <= LEVEL_MAX,
{
    if offset < u32::MAX / 2 {
        0xfff
    } else {
        0
    }
}

pub fn wave_12(raw: i16) -> (n: u16)
    ensures
        n == spec_wave_12(raw),
        n <= LEVEL_MAX,
{
    let shifted: i32 = 0x8000 + raw as i32;
    (shifted / 16) as u16
}

impl Mode {
    /// Number of modes.
    pub fn len() -> (n: usize)
        ensures
            n == 12,
    {
        12
    }

    /// Position of the mode in the cycle of modes.
    pub open spec fn spec_index(self) -> int {
        match self {
            Mode::Random => 0,
            Mode::SawUp => 1,
            Mode::SawDown => 2,
            Mode::Sine => 3,
            Mode::Sine90 => 4,
            Mode::Sine180 => 5,
            Mode::Triangle => 6,
            Mode::Triangle90 => 7,
            Mode::Triangle180 => 8,
            Mode::Square => 9,
            Mode::Square90 => 10,
            Mode::Square180 => 11,
        }
    }

    /// The mode at position `n` of the cycle, wrapping around in both
    /// directions.
    pub open spec fn spec_from(n: int) -> Mode {
        let k = n % 12;
        if k == 0 {
            Mode::Random
        } else if k == 1 {
            Mode::SawUp
        } else if k == 2 {
            Mode::SawDown
        } else if k == 3 {
            Mode::Sine
        } else if k == 4 {
            Mode::Sine90
        } else if k == 5 {
            Mode::Sine180
        } else if k == 6 {
            Mode::Triangle
        } else if k == 7 {
            Mode::Triangle90
        } else if k == 8 {
            Mode::Triangle180
        } else if k == 9 {
            Mode::Square
        } else if k == 10 {
            Mode::Square90
        } else {
            Mode::Square180
        }
    }

    /// What the mode puts out at phase `offset`.
    pub open spec fn spec_output(self, offset: u32, rnd: Seq<u32>, length: u8, waves: Waves) -> u16 {
        match self {
            Mode::Random => (rnd[spec_slot(offset, length)] / 0x10_0000) as u16,
            Mode::SawUp => spec_saw_12(offset),
            Mode::SawDown => spec_saw_12((u32::MAX - offset) as u32),
            Mode::Sine => spec_wave_12(waves.sine),
            Mode::Sine90 => spec_wave_12(waves.sine90),
            Mode::Sine180 => spec_wave_12(waves.sine180),
            Mode::Triangle => spec_wave_12(waves.triangle),
            Mode::Triangle90 => spec_wave_12(waves.triangle90),
            Mode::Triangle180 => spec_wave_12(waves.triangle180),
            Mode::Square => spec_sqr_12(offset),
            Mode::Square90 => spec_sqr_12(spec_quarter(offset)),
            Mode::Square180 => spec_sqr_12(spec_half(offset)),
        }
    }

    /// Position of the mode in the cycle of modes.
    pub fn index(&self) -> (n: u8)
        ensures
            n == self.spec_index(),
            n < 12,
    {
        match self {
            Mode::Random => 0,
            Mode::SawUp => 1,
            Mode::SawDown => 2,
            Mode::Sine => 3,
            Mode::Sine90 => 4,
            Mode::Sine180 => 5,
            Mode::Triangle => 6,
            Mode::Triangle90 => 7,
            Mode::Triangle180 => 8,
            Mode::Square => 9,
            Mode::Square90 => 10,
            Mode::Square180 => 11,
        }
    }

    /// The mode at position `v` of the cycle, wrapping around in both
    /// directions.
    pub fn from(v: i8) -> (m: Mode)
        ensures
            m == Mode::spec_from(v as int),
    {
        Mode::wrap(v as i16)
    }

    /// The mode at position `v` of the cycle, wrapping around in both
    /// directions.
    pub fn wrap(v: i16) -> (m: Mode)
        ensures
            m == Mode::spec_from(v as int),
    {
        let r: i16 = v % 12;
        let k: i16 = if r < 0 {
            r + 12
        } else {
            r
        };
        if k == 0 {
            Mode::Random
        } else if k == 1 {
            Mode::SawUp
        } else if k == 2 {
            Mode::SawDown
        } else if k == 3 {
            Mode::Sine
        } else if k == 4 {
            Mode::Sine90
        } else if k == 5 {
            Mode::Sine180
        } else if k == 6 {
            Mode::Triangle
        } else if k == 7 {
            Mode::Triangle90
        } else if k == 8 {
            Mode::Triangle180
        } else if k == 9 {
            Mode::Square
        } else if k == 10 {
            Mode::Square90
        } else {
            Mode::Square180
        }
    }

    /// What the mode puts out at phase `offset`: for `Random` the twelve
    /// highest bits of the table entry that the phase selects, for the other
    /// modes the waveform's level.
    pub fn output(&self, offset: u32, rnd: &[u32; 64], length: u8, waves: &Waves) -> (n: u16)
        requires
            length > 0,
            *self == Mode::Random ==> length >= 2 && spec_slot(offset, length) < 64,
        ensures
            n == self.spec_output(offset, rnd@, length, *waves),
            n <= LEVEL_MAX,
    {
        match self {
            Mode::Random => {
                let k: u32 = (length - 1) as u32;
                assert(0xffff_ffffu32 / k >= 1) by (nonlinear_arith)
                    requires
                        1 <= k <= 255,
                ;
                let x: usize = (offset / (u32::MAX / k)) as usize;
                let n: u32 = rnd[x];
                (n / 0x10_0000) as u16
            },
            Mode::SawUp => saw_12(offset),
            Mode::SawDown => saw_12(u32::MAX - offset),
            Mode::Sine => wave_12(waves.sine),
            Mode::Sine90 => wave_12(waves.sine90),
            Mode::Sine180 => wave_12(waves.sine180),
            Mode::Triangle => wave_12(waves.triangle),
            Mode::Triangle90 => wave_12(waves.triangle90),
            Mode::Triangle180 => wave_12(waves.triangle180),
            Mode::Square => sqr_12(offset),
            Mode::Square90 => sqr_12(quarter(offset)),
            Mode::Square180 => sqr_12(half(offset)),
        }
    }
}

/// A 12-bit oscillator.
#[derive(Clone, Copy, Debug, PartialEq, Eq)]
pub struct Lfo {
    /// Phase, driven from the predicted position in the track.
    pub offset: u32,
    /// Sine and triangle at `offset`.
    pub waves: Waves,
    pub mode: Mode,
    pub gate_high: bool,
    /// Pre-drawn random values, one per step.
    pub rnd: [u32; 64],
    /// Steps of the track.
    pub length: u8,
    /// Level emitted last.
    pub last: u16,
    /// Level waiting to be taken by [`Lfo::tick`].
    pub next: Option<u16>,
}

impl Lfo {
    pub open spec fn wf(self) -> bool {
        &&& 2 <= self.length <= 64
        &&& self.next matches Some(n) ==> n <= LEVEL_MAX
    }

    /// The oscillator after rendering its waveform once.
    ///
    /// `Random` takes a new level only where its gate rises. The other modes
    /// take the level at the present phase, if it differs from the level
    /// emitted last.
    pub open spec fn spec_update(self, gate_rise: bool) -> Lfo {
        let n = self.mode.spec_output(self.offset, self.rnd@, self.length, self.waves);
        if self.mode == Mode::Random {
            if gate_rise {
                Lfo { next: Some(n), ..self }
            } else {
                self
            }
        } else if n != self.last {
            Lfo { last: n, next: Some(n), ..self }
        } else {
            self
        }
    }

    pub open spec fn spec_set_offset(self, offset: u32, waves: Waves) -> Lfo {
        (Lfo { offset, waves, ..self }).spec_update(false)
    }

    pub open spec fn spec_set_seed_length(self, draws: [u32; 64], length: u8) -> Lfo {
        (Lfo { rnd: draws, length, ..self }).spec_update(false)
    }

    pub open spec fn spec_set_mode(self, d: i8) -> Lfo {
        (Lfo { mode: Mode::spec_from(self.mode.spec_index() + d), ..self }).spec_update(false)
    }

    pub open spec fn spec_set_gate_high(self, high: bool) -> Lfo {
        if self.gate_high != high {
            Lfo { gate_high: high, ..self.spec_update(!self.gate_high && high) }
        } else {
            self
        }
    }

    /// An oscillator at phase zero in `Random` mode on a track of two steps,
    /// with a table of zeros.
    pub open spec fn spec_new(waves: Waves) -> Lfo {
        Lfo {
            offset: 0,
            waves,
            mode: Mode::Random,
            gate_high: false,
            rnd: vstd::array::spec_array_fill_for_copy_type(0u32),
            length: 2,
            last: 0,
            next: None,
        }
    }

    /// Executable form of [`Lfo::wf`].
    pub fn is_valid(&self) -> (b: bool)
        ensures
            b == self.wf(),
    {
        2 <= self.length && self.length <= 64 && match self.next {
            Some(n) => n <= LEVEL_MAX,
            None => true,
        }
    }

    /// An oscillator at phase zero in `Random` mode on a track of two steps,
    /// with a table of zeros. `waves` holds sine and triangle at phase zero.
    pub fn new(waves: Waves) -> (lfo: Lfo)
        ensures
            lfo == Lfo::spec_new(waves),
            lfo.wf(),
    {
        Lfo {
            offset: 0,
            waves,
            mode: Mode::Random,
            gate_high: false,
            rnd: [0u32; 64],
            length: 2,
            last: 0,
            next: None,
        }
    }

    /// Moves the oscillator to phase `offset`, where sine and triangle have
    /// the values `waves`, and renders.
    pub fn set_offset(&mut self, offset: u32, waves: Waves)
        requires
            old(self).wf(),
        ensures
            *final(self) == old(self).spec_set_offset(offset, waves),
            final(self).wf(),
    {
        self.offset = offset;
        self.waves = waves;
        self.update(false);
    }

    /// Replaces the random table by `draws` and the track length by
    /// `length`, and renders.
    pub fn set_seed_length(&mut self, draws: &[u32; 64], length: u8)
        requires
            old(self).wf(),
            2 <= length <= 64,
        ensures
            *final(self) == old(self).spec_set_seed_length(*draws, length),
            final(self).wf(),
    {
        self.length = length;
        self.rnd = *draws;
        self.update(false);
    }

    /// Steps `d` modes along the cycle of modes, wrapping around, and
    /// renders.
    pub fn set_mode(&mut self, d: i8)
        requires
            old(self).wf(),
        ensures
            *final(self) == old(self).spec_set_mode(d),
            final(self).wf(),
    {
        let n: i16 = self.mode.index() as i16 + d as i16;
        self.mode = Mode::wrap(n);
        self.update(false);
    }

    /// Tells the oscillator the level of its track's gate. Renders where the
    /// level changes.
    pub fn set_gate_high(&mut self, high: bool)
        requires
            old(self).wf(),
        ensures
            *final(self) == old(self).spec_set_gate_high(high),
            final(self).wf(),
    {
        if self.gate_high != high {
            self.update(!self.gate_high && high);
            self.gate_high = high;
        }
    }

    /// Renders the waveform once: see [`Lfo::spec_update`].
    pub fn update(&mut self, gate_rise: bool)
        requires
            old(self).wf(),
        ensures
            *final(self) == old(self).spec_update(gate_rise),
            final(self).wf(),
    {
        proof {
            lemma_slot_bound(self.offset, self.length);
        }
        if self.mode == Mode::Random {
            if !gate_rise {
                return ;
            }
            let n = self.mode.output(self.offset, &self.rnd, self.length, &self.waves);
            self.next = Some(n);
        } else {
            let n = self.mode.output(self.offset, &self.rnd, self.length, &self.waves);
            if n != self.last {
                self.last = n;
                self.next = Some(n);
            }
        }
    }

    /// Takes the level that waits to be emitted, if there is one.
    pub fn tick(&mut self) -> (level: Option<u16>)
        requires
            old(self).wf(),
        ensures
            level == old(self).next,
            *final(self) == (Lfo { next: None, ..*old(self) }),
            level matches Some(n) ==> n <= LEVEL_MAX,
            final(self).wf(),
    {
        let level = self.next;
        self.next = None;
        level
    }
}

} // verus!
