//! Configuration and SPI words of the MCP23S17 16-bit I/O expander.
//!
//! Nothing here touches the bus. A configuration is built pin by pin, turned
//! into the words that write it to the chip, and compared with what the
//! chip reads back. Pins are numbered from 0; a register holds one bit per
//! pin.

use vstd::prelude::*;

verus! {

/// Mirrored interrupt pins, active high, in both halves of the
/// configuration register.
pub const IOCON: u16 = 0x4242;

/// Register addresses, in 16-bit mode.
pub const REG_DIR: u8 = 0x00;

pub const REG_POL: u8 = 0x02;

pub const REG_INT: u8 = 0x04;

pub const REG_DEF: u8 = 0x06;

pub const REG_CON: u8 = 0x08;

pub const REG_IOCON: u8 = 0x0a;

pub const REG_PUL: u8 = 0x0c;

pub const REG_INT_CAP: u8 = 0x10;

pub const REG_INPUTS: u8 = 0x12;

/// `v` with the bit of `pin` set or cleared.
pub open spec fn spec_set_bit(v: u16, pin: u8, on: bool) -> u16 {
    if on {
        v | (1u16 << pin)
    } else {
        v & !(1u16 << pin)
    }
}

/// Whether the bit of `pin` is set in `v`.
pub open spec fn spec_is_bit(v: u16, pin: u8) -> bool {
    v & (1u16 << pin) != 0
}

/// The bits of the pins below `pin`.
pub open spec fn spec_below(pin: u8) -> u16 {
    (!(0xffff_ffffu32 << pin) & 0xffff) as u16
}

/// `v` with the bit of `pin` set or cleared.
pub fn set_bit(v: u16, pin: u8, on: bool) -> (r: u16)
    requires
        pin < 16,
    ensures
        r == spec_set_bit(v, pin, on),
{
    if on {
        v | (1u16 << pin)
    } else {
        v & !(1u16 << pin)
    }
}

/// Whether the bit of `pin` is set in `v`.
pub fn is_bit(v: u16, pin: u8) -> (b: bool)
    requires
        pin < 16,
    ensures
        b == spec_is_bit(v, pin),
{
    v & (1u16 << pin) != 0
}

/// The first word of a transfer: the chip's fixed prefix, the read bit, and
/// the register's address.
pub open spec fn spec_address(write: bool, addr: u8) -> u16 {
    0x4000u16 | (if write {
        0u16
    } else {
        0x0100u16
    }) | (addr as u16)
}

/// The first word of a transfer.
pub fn address(write: bool, addr: u8) -> (word: u16)
    ensures
        word == spec_address(write, addr),
{
    0x4000u16 | if write {
        0u16
    } else {
        0x0100u16
    } | (addr as u16)
}

/// How a pin raises an interrupt.
#[derive(Clone, Copy, Debug, PartialEq, Eq, Structural)]
pub enum InterruptMode {
    /// When the pin changes.
    CompareAgainstPrevious,
    /// When the pin differs from the given level.
    CompareAgainst(bool),
}

/// A configuration of the chip: one register per field.
#[derive(Clone, Copy, Debug, PartialEq, Eq, Structural)]
pub struct Builder {
    /// Direction: 0 is output, 1 is input.
    pub dir: u16,
    /// Polarity: 1 is inverted.
    pub pol: u16,
    /// Interrupt on change.
    pub inten: u16,
    /// Level to compare against, where `con` is set.
    pub def: u16,
    /// Compare against `def` (1) or against the level before (0).
    pub con: u16,
    /// Pull-up.
    pub pul: u16,
}

/// A configuration with one input pin picked out.
#[derive(Clone, Copy, Debug, PartialEq, Eq, Structural)]
pub struct Input {
    pub builder: Builder,
    pub pin: u8,
}

/// The configuration the chip starts with: every pin an input.
pub fn builder() -> (b: Builder)
    ensures
        b == (Builder { dir: 0xffff, pol: 0, inten: 0, def: 0, con: 0, pul: 0 }),
{
    Builder { dir: 0xffff, pol: 0, inten: 0, def: 0, con: 0, pul: 0 }
}

proof fn lemma_below()
    ensures
        spec_below(0) == 0,
        spec_below(16) == 0xffff,
{
    assert((!(0xffff_ffffu32 << 0u8) & 0xffff) as u16 == 0) by (bit_vector);
    assert((!(0xffff_ffffu32 << 16u8) & 0xffff) as u16 == 0xffff) by (bit_vector);
}

proof fn lemma_set_none(x: u16, d: u16)
    by (bit_vector)
    ensures
        x | (d & 0) == x,
        x & !(d & 0) == x,
        d & 0xffff == d,
{
}

proof fn lemma_set_step(x: u16, d: u16, pin: u8, next: u8)
    by (bit_vector)
    requires
        pin < 16,
        next == pin + 1,
    ensures
        d & (1u16 << pin) != 0 ==> (x | (d & spec_below(pin))) | (1u16 << pin) == x | (d & spec_below(next)),
        d & (1u16 << pin) == 0 ==> x | (d & spec_below(pin)) == x | (d & spec_below(next)),
        d & (1u16 << pin) != 0 ==> (x & !(d & spec_below(pin))) & !(1u16 << pin) == x & !(d & spec_below(next)),
        d & (1u16 << pin) == 0 ==> x & !(d & spec_below(pin)) == x & !(d & spec_below(next)),
        d | (1u16 << pin) == d <==> d & (1u16 << pin) != 0,
{
}

impl Builder {
    /// The configuration with interrupts enabled on every pin that is an
    /// input.
    pub open spec fn spec_enable_all_interrupts(self, mode: InterruptMode) -> Builder {
        match mode {
            InterruptMode::CompareAgainst(level) => Builder {
                inten: self.inten | self.dir,
                def: if level {
                    self.def | self.dir
                } else {
                    self.def & !self.dir
                },
                con: self.con | self.dir,
                ..self
            },
            InterruptMode::CompareAgainstPrevious => Builder {
                inten: self.inten | self.dir,
                def: self.def & !self.dir,
                con: self.con & !self.dir,
                ..self
            },
        }
    }

    /// The configuration with the pull-up switched on or off on every pin
    /// that is an input.
    pub open spec fn spec_set_all_pull_up(self, on: bool) -> Builder {
        Builder {
            pul: if on {
                self.pul | self.dir
            } else {
                self.pul & !self.dir
            },
            ..self
        }
    }

    /// The seven transfers that write the configuration to the chip, each
    /// as its two words: the chip's own configuration first, then
    /// direction, polarity, interrupt enable, default level, interrupt
    /// control and pull-up.
    pub open spec fn spec_configure(self) -> Seq<(u16, u16)> {
        seq![
            (spec_address(true, REG_IOCON), IOCON),
            (spec_address(true, REG_DIR), self.dir),
            (spec_address(true, REG_POL), self.pol),
            (spec_address(true, REG_INT), self.inten),
            (spec_address(true, REG_DEF), self.def),
            (spec_address(true, REG_CON), self.con),
            (spec_address(true, REG_PUL), self.pul),
        ]
    }

    /// The values the seven registers are to read back, in the order of
    /// [`Builder::spec_configure`].
    pub open spec fn spec_expected(self) -> Seq<u16> {
        seq![IOCON, self.dir, self.pol, self.inten, self.def, self.con, self.pul]
    }

    /// Enables interrupts on every pin that is an input.
    pub fn enable_all_interrupts(self, mode: InterruptMode) -> (b: Builder)
        ensures
            b == self.spec_enable_all_interrupts(mode),
    {
        let mut b = self;
        let mut pin: u8 = 0;
        proof {
            lemma_below();
            lemma_set_none(self.inten, self.dir);
            lemma_set_none(self.def, self.dir);
            lemma_set_none(self.con, self.dir);
        }
        while pin < 16
            invariant
                0 <= pin <= 16,
                b.dir == self.dir,
                b.pol == self.pol,
                b.pul == self.pul,
                b.inten == self.inten | (self.dir & spec_below(pin)),
                mode matches InterruptMode::CompareAgainst(level) ==> b.con == self.con | (self.dir & spec_below(
                    pin,
                )) && b.def == (if level {
                    self.def | (self.dir & spec_below(pin))
                } else {
                    self.def & !(self.dir & spec_below(pin))
                }),
                mode is CompareAgainstPrevious ==> b.con == self.con & !(self.dir & spec_below(pin)) && b.def
                    == self.def & !(self.dir & spec_below(pin)),
            decreases 16 - pin,
        {
            proof {
                lemma_set_step(self.inten, self.dir, pin, (pin + 1) as u8);
                lemma_set_step(self.def, self.dir, pin, (pin + 1) as u8);
                lemma_set_step(self.con, self.dir, pin, (pin + 1) as u8);
            }
            if is_bit(b.dir, pin) {
                b = b.input(pin).enable_interrupt(mode).done();
            }
            pin += 1;
        }
        proof {
            lemma_below();
            lemma_set_none(self.pul, self.dir);
        }
        b
    }

    /// Switches the pull-up on or off on every pin that is an input.
    pub fn set_all_pull_up(self, on: bool) -> (b: Builder)
        ensures
            b == self.spec_set_all_pull_up(on),
    {
        let mut b = self;
        let mut pin: u8 = 0;
        proof {
            lemma_below();
            lemma_set_none(self.pul, self.dir);
        }
        while pin < 16
            invariant
                0 <= pin <= 16,
                b.dir == self.dir,
                b.pol == self.pol,
                b.inten == self.inten,
                b.def == self.def,
                b.con == self.con,
                b.pul == (if on {
                    self.pul | (self.dir & spec_below(pin))
                } else {
                    self.pul & !(self.dir & spec_below(pin))
                }),
            decreases 16 - pin,
        {
            proof {
                lemma_set_step(self.pul, self.dir, pin, (pin + 1) as u8);
            }
            if is_bit(b.dir, pin) {
                b = b.input(pin).pull_up(on).done();
            }
            pin += 1;
        }
        proof {
            lemma_below();
            lemma_set_none(self.pul, self.dir);
        }
        b
    }

    /// Makes `pin` an input and picks it out for further settings.
    pub fn input(self, pin: u8) -> (i: Input)
        requires
            pin < 16,
        ensures
            i == (Input { builder: Builder { dir: spec_set_bit(self.dir, pin, true), ..self }, pin }),
    {
        Input { builder: Builder { dir: set_bit(self.dir, pin, true), ..self }, pin }
    }

    /// Makes `pin` an output.
    pub fn output(self, pin: u8) -> (b: Builder)
        requires
            pin < 16,
        ensures
            b == (Builder { dir: spec_set_bit(self.dir, pin, false), ..self }),
    {
        Builder { dir: set_bit(self.dir, pin, false), ..self }
    }

    /// The seven transfers that write the configuration to the chip: see
    /// [`Builder::spec_configure`].
    pub fn configure(&self) -> (words: [(u16, u16); 7])
        ensures
            words@ == self.spec_configure(),
    {
        let words = [
            (address(true, REG_IOCON), IOCON),
            (address(true, REG_DIR), self.dir),
            (address(true, REG_POL), self.pol),
            (address(true, REG_INT), self.inten),
            (address(true, REG_DEF), self.def),
            (address(true, REG_CON), self.con),
            (address(true, REG_PUL), self.pul),
        ];
        assert(words@ =~= self.spec_configure());
        words
    }

    /// The first words of the seven transfers that read the configuration
    /// back, in the order of [`Builder::spec_configure`].
    pub fn verify_requests() -> (words: [u16; 7])
        ensures
            words@ == seq![
                spec_address(false, REG_IOCON),
                spec_address(false, REG_DIR),
                spec_address(false, REG_POL),
                spec_address(false, REG_INT),
                spec_address(false, REG_DEF),
                spec_address(false, REG_CON),
                spec_address(false, REG_PUL),
            ],
    {
        let words = [
            address(false, REG_IOCON),
            address(false, REG_DIR),
            address(false, REG_POL),
            address(false, REG_INT),
            address(false, REG_DEF),
            address(false, REG_CON),
            address(false, REG_PUL),
        ];
        assert(words@ =~= seq![
            spec_address(false, REG_IOCON),
            spec_address(false, REG_DIR),
            spec_address(false, REG_POL),
            spec_address(false, REG_INT),
            spec_address(false, REG_DEF),
            spec_address(false, REG_CON),
            spec_address(false, REG_PUL),
        ]);
        words
    }

    /// Compares what the chip read back with the configuration. Returns,
    /// for each of the seven registers, whether it holds what was written.
    pub fn verify_config(&self, read: &[u16; 7]) -> (same: [bool; 7])
        ensures
            forall|i: int| 0 <= i < 7 ==> (#[trigger] same[i]) == (read[i] == self.spec_expected()[i]),
    {
        [
            read[0] == IOCON,
            read[1] == self.dir,
            read[2] == self.pol,
            read[3] == self.inten,
            read[4] == self.def,
            read[5] == self.con,
            read[6] == self.pul,
        ]
    }
}

impl Input {
    /// Inverts the polarity of the pin, or not.
    pub fn polarity(self, inverted: bool) -> (i: Input)
        requires
            self.pin < 16,
        ensures
            i == (Input { builder: Builder { pol: spec_set_bit(self.builder.pol, self.pin, inverted), ..self.builder }, ..self }),
    {
        Input { builder: Builder { pol: set_bit(self.builder.pol, self.pin, inverted), ..self.builder }, pin: self.pin }
    }

    /// Gives the pin a pull-up, or takes it away.
    pub fn pull_up(self, pull_up: bool) -> (i: Input)
        requires
            self.pin < 16,
        ensures
            i == (Input { builder: Builder { pul: spec_set_bit(self.builder.pul, self.pin, pull_up), ..self.builder }, ..self }),
    {
        Input { builder: Builder { pul: set_bit(self.builder.pul, self.pin, pull_up), ..self.builder }, pin: self.pin }
    }

    /// The configuration with the pin's interrupt enabled in `mode`.
    pub open spec fn spec_enable_interrupt(self, mode: InterruptMode) -> Input {
        let b = self.builder;
        Input {
            builder: Builder {
                inten: spec_set_bit(b.inten, self.pin, true),
                def: spec_set_bit(b.def, self.pin, mode matches InterruptMode::CompareAgainst(level) && level),
                con: spec_set_bit(b.con, self.pin, mode is CompareAgainst),
                ..b
            },
            ..self
        }
    }

    /// Enables the pin's interrupt.
    pub fn enable_interrupt(self, mode: InterruptMode) -> (i: Input)
        requires
            self.pin < 16,
        ensures
            i == self.spec_enable_interrupt(mode),
    {
        let b = self.builder;
        let inten = set_bit(b.inten, self.pin, true);
        match mode {
            InterruptMode::CompareAgainst(level) => Input {
                builder: Builder {
                    inten,
                    def: set_bit(b.def, self.pin, level),
                    con: set_bit(b.con, self.pin, true),
                    ..b
                },
                pin: self.pin,
            },
            InterruptMode::CompareAgainstPrevious => Input {
                builder: Builder {
                    inten,
                    def: set_bit(b.def, self.pin, false),
                    con: set_bit(b.con, self.pin, false),
                    ..b
                },
                pin: self.pin,
            },
        }
    }

    /// The configuration with the settings of the pin.
    pub fn done(self) -> (b: Builder)
        ensures
            b == self.builder,
    {
        self.builder
    }
}

/// The two words that read the input register.
pub fn read_inputs() -> (words: (u16, u16))
    ensures
        words == (spec_address(false, REG_INPUTS), 0u16),
{
    (address(false, REG_INPUTS), 0)
}

/// The two words that read the interrupt-capture register.
pub fn read_int_cap() -> (words: (u16, u16))
    ensures
        words == (spec_address(false, REG_INT_CAP), 0u16),
{
    (address(false, REG_INT_CAP), 0)
}

} // verus!
