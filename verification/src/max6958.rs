//! The bytes that drive a MAX6958/MAX6959 segment display, and the
//! translation of digits and letters into segments.
//!
//! Nothing here touches the bus: each command is returned as the bytes to
//! write to the device at [`Max6958::address`].
//!
//! ```text
//! d7 d6 d5 d4 d3 d2 d1 d0
//!  X  a  b  c  d  e  f  g
//!
//!         +- a -+
//!         f     b
//!         |- g -|
//!         e     c
//!         +- d -+
//! ```

use vstd::prelude::*;
use vstd::string::StringSliceAdditionalSpecFns;

verus! {

/// Address variant of the chip. Two chips can share a bus if they are of
/// different variants.
#[derive(Clone, Copy, Debug, PartialEq, Eq, Structural)]
pub enum Variant {
    A,
    B,
}

impl Variant {
    /// The 7-bit bus address.
    pub open spec fn spec_addr(self) -> u8 {
        match self {
            Variant::A => 0x38,
            Variant::B => 0x39,
        }
    }

    /// The 7-bit bus address.
    pub fn addr(&self) -> (a: u8)
        ensures
            a == self.spec_addr(),
    {
        match self {
            Variant::A => 0x38,
            Variant::B => 0x39,
        }
    }
}

/// How many digits the chip scans.
#[derive(Clone, Copy, Debug, PartialEq, Eq, Structural)]
pub enum ScanLimit {
    Digit0,
    Digit01,
    Digit012,
    Digit0123,
}

impl ScanLimit {
    /// The value of the scan-limit register.
    pub open spec fn spec_value(self) -> u8 {
        match self {
            ScanLimit::Digit0 => 0,
            ScanLimit::Digit01 => 1,
            ScanLimit::Digit012 => 2,
            ScanLimit::Digit0123 => 3,
        }
    }

    /// The value of the scan-limit register.
    pub fn value(&self) -> (v: u8)
        ensures
            v == self.spec_value(),
    {
        match self {
            ScanLimit::Digit0 => 0,
            ScanLimit::Digit01 => 1,
            ScanLimit::Digit012 => 2,
            ScanLimit::Digit0123 => 3,
        }
    }
}

/// The registers of the chip.
#[derive(Clone, Copy, Debug, PartialEq, Eq, Structural)]
pub enum Register {
    NoOp,
    DecodeMode,
    Intensity,
    ScanLimit,
    Configuration,
    FactoryReserved,
    GpIo,
    DisplayTest,
    ReadKeyDebounced,
    ReadKeyPressed,
    Digit0,
    Digit1,
    Digit2,
    Digit3,
    Segments,
}

impl Register {
    /// The register's address on the chip.
    pub open spec fn spec_addr(self) -> u8 {
        match self {
            Register::NoOp => 0x00,
            Register::DecodeMode => 0x01,
            Register::Intensity => 0x02,
            Register::ScanLimit => 0x03,
            Register::Configuration => 0x04,
            Register::FactoryReserved => 0x05,
            Register::GpIo => 0x06,
            Register::DisplayTest => 0x07,
            Register::ReadKeyDebounced => 0x08,
            Register::ReadKeyPressed => 0x0c,
            Register::Digit0 => 0x20,
            Register::Digit1 => 0x21,
            Register::Digit2 => 0x22,
            Register::Digit3 => 0x23,
            Register::Segments => 0x24,
        }
    }

    /// The register's address on the chip.
    pub fn addr(&self) -> (a: u8)
        ensures
            a == self.spec_addr(),
    {
        match self {
            Register::NoOp => 0x00,
            Register::DecodeMode => 0x01,
            Register::Intensity => 0x02,
            Register::ScanLimit => 0x03,
            Register::Configuration => 0x04,
            Register::FactoryReserved => 0x05,
            Register::GpIo => 0x06,
            Register::DisplayTest => 0x07,
            Register::ReadKeyDebounced => 0x08,
            Register::ReadKeyPressed => 0x0c,
            Register::Digit0 => 0x20,
            Register::Digit1 => 0x21,
            Register::Digit2 => 0x22,
            Register::Digit3 => 0x23,
            Register::Segments => 0x24,
        }
    }
}

/// One of the four digits.
#[derive(Clone, Copy, Debug, PartialEq, Eq, Structural)]
pub enum Digit {
    Digit0,
    Digit1,
    Digit2,
    Digit3,
}

impl Digit {
    /// The digit's number: one bit per digit.
    pub open spec fn spec_number(self) -> u8 {
        match self {
            Digit::Digit0 => 1,
            Digit::Digit1 => 2,
            Digit::Digit2 => 4,
            Digit::Digit3 => 8,
        }
    }

    /// The register that holds the digit.
    pub open spec fn spec_as_reg(self) -> Register {
        match self {
            Digit::Digit0 => Register::Digit0,
            Digit::Digit1 => Register::Digit1,
            Digit::Digit2 => Register::Digit2,
            Digit::Digit3 => Register::Digit3,
        }
    }

    /// The digit's number: one bit per digit.
    pub fn number(&self) -> (n: u8)
        ensures
            n == self.spec_number(),
    {
        match self {
            Digit::Digit0 => 1,
            Digit::Digit1 => 2,
            Digit::Digit2 => 4,
            Digit::Digit3 => 8,
        }
    }

    /// The register that holds the digit.
    pub fn as_reg(&self) -> (r: Register)
        ensures
            r == self.spec_as_reg(),
    {
        match self {
            Digit::Digit0 => Register::Digit0,
            Digit::Digit1 => Register::Digit1,
            Digit::Digit2 => Register::Digit2,
            Digit::Digit3 => Register::Digit3,
        }
    }
}

/// The segment patterns of the characters the display can show, and of
/// some single segments and corners.
#[derive(Clone, Copy, Debug, PartialEq, Eq, Structural)]
pub enum Seg {
    SP,
    N0,
    N1,
    N2,
    N3,
    N4,
    N5,
    N6,
    N7,
    N8,
    N9,
    A,
    B,
    C,
    D,
    E,
    F,
    G,
    H,
    I,
    J,
    L,
    N,
    O,
    P,
    R,
    T,
    U,
    Y,
    CornerBr,
    CornerMru,
    CornerTr,
    CornerMrd,
    SegA,
    SegB,
    SegC,
    SegD,
    SegE,
    SegF,
    SegG,
}

impl Seg {
    /// The lit segments, one bit each.
    pub open spec fn spec_bits(self) -> u8 {
        match self {
            Seg::SP => 0b0000_0000,
            Seg::N0 => 0b0111_1110,
            Seg::N1 => 0b0011_0000,
            Seg::N2 => 0b0110_1101,
            Seg::N3 => 0b0111_1001,
            Seg::N4 => 0b0011_0011,
            Seg::N5 => 0b0101_1011,
            Seg::N6 => 0b0101_1111,
            Seg::N7 => 0b0111_0000,
            Seg::N8 => 0b0111_1111,
            Seg::N9 => 0b0111_0011,
            Seg::A => 0b0111_0111,
            Seg::B => 0b0001_1111,
            Seg::C => 0b0000_1101,
            Seg::D => 0b0011_1101,
            Seg::E => 0b0100_1111,
            Seg::F => 0b0100_0111,
            Seg::G => 0b0111_1011,
            Seg::H => 0b0001_0111,
            Seg::I => 0b0000_0110,
            Seg::J => 0b0111_1100,
            Seg::L => 0b0000_1110,
            Seg::N => 0b0001_0101,
            Seg::O => 0b0001_1101,
            Seg::P => 0b0110_0111,
            Seg::R => 0b0000_0101,
            Seg::T => 0b0000_1111,
            Seg::U => 0b0001_1100,
            Seg::Y => 0b0011_1011,
            Seg::CornerBr => 0b0001_1000,
            Seg::CornerMru => 0b0010_0001,
            Seg::CornerTr => 0b0110_0000,
            Seg::CornerMrd => 0b0001_0001,
            Seg::SegA => 0b0100_0000,
            Seg::SegB => 0b0010_0000,
            Seg::SegC => 0b0001_0000,
            Seg::SegD => 0b0000_1000,
            Seg::SegE => 0b0000_0100,
            Seg::SegF => 0b0000_0010,
            Seg::SegG => 0b0000_0001,
        }
    }

    /// The byte without the difference between a digit and its ASCII
    /// character, and between a lower-case letter and its capital.
    pub open spec fn spec_fold(n: u8) -> u8 {
        if 48 <= n <= 57 {
            (n - 48) as u8
        } else if 97 <= n <= 122 {
            (n - 32) as u8
        } else {
            n
        }
    }

    /// The pattern for a byte: a number from 0 to 9, an ASCII digit, a
    /// space, or one of the letters that seven segments can show. `S` looks
    /// like 5 and `Z` like 2.
    pub open spec fn spec_from(n: u8) -> Option<Seg> {
        let c = Seg::spec_fold(n);
        if c == 0 {
            Some(Seg::N0)
        } else if c == 1 {
            Some(Seg::N1)
        } else if c == 2 {
            Some(Seg::N2)
        } else if c == 3 {
            Some(Seg::N3)
        } else if c == 4 {
            Some(Seg::N4)
        } else if c == 5 {
            Some(Seg::N5)
        } else if c == 6 {
            Some(Seg::N6)
        } else if c == 7 {
            Some(Seg::N7)
        } else if c == 8 {
            Some(Seg::N8)
        } else if c == 9 {
            Some(Seg::N9)
        } else if c == 32 {
            Some(Seg::SP)
        } else if c == 65 {
            Some(Seg::A)
        } else if c == 66 {
            Some(Seg::B)
        } else if c == 67 {
            Some(Seg::C)
        } else if c == 68 {
            Some(Seg::D)
        } else if c == 69 {
            Some(Seg::E)
        } else if c == 70 {
            Some(Seg::F)
        } else if c == 71 {
            Some(Seg::G)
        } else if c == 72 {
            Some(Seg::H)
        } else if c == 73 {
            Some(Seg::I)
        } else if c == 74 {
            Some(Seg::J)
        } else if c == 76 {
            Some(Seg::L)
        } else if c == 78 {
            Some(Seg::N)
        } else if c == 79 {
            Some(Seg::O)
        } else if c == 80 {
            Some(Seg::P)
        } else if c == 82 {
            Some(Seg::R)
        } else if c == 83 {
            Some(Seg::N5)
        } else if c == 84 {
            Some(Seg::T)
        } else if c == 85 {
            Some(Seg::U)
        } else if c == 89 {
            Some(Seg::Y)
        } else if c == 90 {
            Some(Seg::N2)
        } else {
            None
        }
    }

    /// The segments lit for a byte, or nothing lit for a byte without a
    /// pattern.
    pub open spec fn spec_code(n: u8) -> u8 {
        match Seg::spec_from(n) {
            Some(seg) => seg.spec_bits(),
            None => 0,
        }
    }

    /// The lit segments, one bit each.
    pub fn bits(&self) -> (b: u8)
        ensures
            b == self.spec_bits(),
    {
        match self {
            Seg::SP => 0b0000_0000,
            Seg::N0 => 0b0111_1110,
            Seg::N1 => 0b0011_0000,
            Seg::N2 => 0b0110_1101,
            Seg::N3 => 0b0111_1001,
            Seg::N4 => 0b0011_0011,
            Seg::N5 => 0b0101_1011,
            Seg::N6 => 0b0101_1111,
            Seg::N7 => 0b0111_0000,
            Seg::N8 => 0b0111_1111,
            Seg::N9 => 0b0111_0011,
            Seg::A => 0b0111_0111,
            Seg::B => 0b0001_1111,
            Seg::C => 0b0000_1101,
            Seg::D => 0b0011_1101,
            Seg::E => 0b0100_1111,
            Seg::F => 0b0100_0111,
            Seg::G => 0b0111_1011,
            Seg::H => 0b0001_0111,
            Seg::I => 0b0000_0110,
            Seg::J => 0b0111_1100,
            Seg::L => 0b0000_1110,
            Seg::N => 0b0001_0101,
            Seg::O => 0b0001_1101,
            Seg::P => 0b0110_0111,
            Seg::R => 0b0000_0101,
            Seg::T => 0b0000_1111,
            Seg::U => 0b0001_1100,
            Seg::Y => 0b0011_1011,
            Seg::CornerBr => 0b0001_1000,
            Seg::CornerMru => 0b0010_0001,
            Seg::CornerTr => 0b0110_0000,
            Seg::CornerMrd => 0b0001_0001,
            Seg::SegA => 0b0100_0000,
            Seg::SegB => 0b0010_0000,
            Seg::SegC => 0b0001_0000,
            Seg::SegD => 0b0000_1000,
            Seg::SegE => 0b0000_0100,
            Seg::SegF => 0b0000_0010,
            Seg::SegG => 0b0000_0001,
        }
    }

    /// The pattern for a byte, if it has one: see [`Seg::spec_from`].
    pub fn lookup(n: u8) -> (seg: Option<Seg>)
        ensures
            seg == Seg::spec_from(n),
    {
        let c: u8 = if 48 <= n && n <= 57 {
            n - 48
        } else if 97 <= n && n <= 122 {
            n - 32
        } else {
            n
        };
        if c == 0 {
            Some(Seg::N0)
        } else if c == 1 {
            Some(Seg::N1)
        } else if c == 2 {
            Some(Seg::N2)
        } else if c == 3 {
            Some(Seg::N3)
        } else if c == 4 {
            Some(Seg::N4)
        } else if c == 5 {
            Some(Seg::N5)
        } else if c == 6 {
            Some(Seg::N6)
        } else if c == 7 {
            Some(Seg::N7)
        } else if c == 8 {
            Some(Seg::N8)
        } else if c == 9 {
            Some(Seg::N9)
        } else if c == 32 {
            Some(Seg::SP)
        } else if c == 65 {
            Some(Seg::A)
        } else if c == 66 {
            Some(Seg::B)
        } else if c == 67 {
            Some(Seg::C)
        } else if c == 68 {
            Some(Seg::D)
        } else if c == 69 {
            Some(Seg::E)
        } else if c == 70 {
            Some(Seg::F)
        } else if c == 71 {
            Some(Seg::G)
        } else if c == 72 {
            Some(Seg::H)
        } else if c == 73 {
            Some(Seg::I)
        } else if c == 74 {
            Some(Seg::J)
        } else if c == 76 {
            Some(Seg::L)
        } else if c == 78 {
            Some(Seg::N)
        } else if c == 79 {
            Some(Seg::O)
        } else if c == 80 {
            Some(Seg::P)
        } else if c == 82 {
            Some(Seg::R)
        } else if c == 83 {
            Some(Seg::N5)
        } else if c == 84 {
            Some(Seg::T)
        } else if c == 85 {
            Some(Seg::U)
        } else if c == 89 {
            Some(Seg::Y)
        } else if c == 90 {
            Some(Seg::N2)
        } else {
            None
        }
    }

    /// The pattern for a byte that has one.
    pub fn from(n: u8) -> (seg: Seg)
        requires
            Seg::spec_from(n) is Some,
        ensures
            Some(seg) == Seg::spec_from(n),
    {
        match Seg::lookup(n) {
            Some(seg) => seg,
            None => Seg::SP,
        }
    }
}

/// The segments of four characters behind one byte that is kept free for
/// the command.
#[derive(Clone, Copy, Debug, PartialEq, Eq)]
pub struct Segs<const X: usize>(pub [u8; X]);

/// Four characters in one go.
pub type Segs4 = Segs<5>;

/// The segments of the decimal digit of `n` at position `i`, counted from
/// the lowest.
pub open spec fn spec_digit_code(n: u32, i: int) -> u8 {
    let d = if i == 0 {
        n as int % 10
    } else if i == 1 {
        n as int / 10 % 10
    } else if i == 2 {
        n as int / 100 % 10
    } else {
        n as int / 1000 % 10
    };
    Seg::spec_code(d as u8)
}

impl Segs<5> {
    /// The four lowest decimal digits of `n`, the lowest in the first place
    /// behind the command byte.
    pub open spec fn spec_from_number(n: u32) -> Seq<u8> {
        seq![0u8, spec_digit_code(n, 0), spec_digit_code(n, 1), spec_digit_code(n, 2), spec_digit_code(n, 3)]
    }

    /// The characters of `s` in reverse, so that the last character stands
    /// in the first place behind the command byte. Places without a
    /// character stay dark.
    pub open spec fn spec_from_bytes(s: Seq<u8>) -> Seq<u8> {
        Seq::new(
            5,
            |i: int|
                if 1 <= i <= s.len() {
                    Seg::spec_code(s[s.len() - i])
                } else {
                    0u8
                },
        )
    }

    /// All dark.
    pub fn new() -> (segs: Segs<5>)
        ensures
            segs.0@ == seq![0u8, 0u8, 0u8, 0u8, 0u8],
    {
        let segs = Segs([0u8; 5]);
        assert(segs.0@ =~= seq![0u8, 0u8, 0u8, 0u8, 0u8]);
        segs
    }

    /// Sets the segments at place `i` behind the command byte.
    pub fn set(&mut self, i: usize, bits: u8)
        requires
            i < 4,
        ensures
            final(self).0@ == old(self).0@.update(i + 1, bits),
    {
        self.0[i + 1] = bits;
    }

    /// The four lowest decimal digits of `n`.
    pub fn from_number(n: u32) -> (segs: Segs<5>)
        ensures
            segs.0@ == Segs::<5>::spec_from_number(n),
    {
        let mut buf: [u8; 5] = [0u8; 5];
        buf[1] = Seg::from((n % 10) as u8).bits();
        buf[2] = Seg::from((n / 10 % 10) as u8).bits();
        buf[3] = Seg::from((n / 100 % 10) as u8).bits();
        buf[4] = Seg::from((n / 1000 % 10) as u8).bits();
        assert(buf@ =~= Segs::<5>::spec_from_number(n));
        Segs(buf)
    }

    /// The characters of `s`, at most four, each of which has a pattern.
    pub fn from_bytes(s: &[u8]) -> (segs: Segs<5>)
        requires
            s@.len() <= 4,
            forall|i: int| 0 <= i < s@.len() ==> Seg::spec_from(#[trigger] s@[i]) is Some,
        ensures
            segs.0@ == Segs::<5>::spec_from_bytes(s@),
    {
        let mut buf: [u8; 5] = [0u8; 5];
        let n: usize = s.len();
        let mut i: usize = 0;
        while i < n
            invariant
                0 <= i <= n,
                n == s@.len(),
                n <= 4,
                forall|i: int| 0 <= i < s@.len() ==> Seg::spec_from(#[trigger] s@[i]) is Some,
                forall|j: int| 1 <= j <= i ==> #[trigger] buf@[j] == Seg::spec_code(s@[n - j]),
                forall|j: int| i < j < 5 ==> #[trigger] buf@[j] == 0,
                buf@[0] == 0,
            decreases n - i,
        {
            buf[i + 1] = Seg::from(s[n - 1 - i]).bits();
            i += 1;
        }
        assert(buf@ =~= Segs::<5>::spec_from_bytes(s@));
        Segs(buf)
    }

    /// The characters of `s`, at most four, each of which has a pattern.
    pub fn from_text(s: &str) -> (segs: Segs<5>)
        requires
            s.spec_bytes().len() <= 4,
            forall|i: int| 0 <= i < s.spec_bytes().len() ==> Seg::spec_from(#[trigger] s.spec_bytes()[i]) is Some,
        ensures
            segs.0@ == Segs::<5>::spec_from_bytes(s.spec_bytes()),
    {
        Segs::<5>::from_bytes(s.as_bytes())
    }
}

/// Driver of one chip.
#[derive(Clone, Copy, Debug, PartialEq, Eq, Structural)]
pub struct Max6958 {
    pub addr: u8,
}

/// The bits of the decode-mode register for a list of digits, as the chip's
/// driver computes them: a one shifted by each digit's number.
pub open spec fn spec_decode_mode(decode: Seq<Digit>) -> u8
    decreases decode.len(),
{
    if decode.len() == 0 {
        0
    } else {
        spec_decode_mode(decode.drop_last()) | (1u8 << decode.last().spec_number())
    }
}

impl Max6958 {
    pub fn new(variant: Variant) -> (m: Max6958)
        ensures
            m.addr == variant.spec_addr(),
    {
        Max6958 { addr: variant.addr() }
    }

    /// The bus address to write the commands to.
    pub fn address(&self) -> (a: u8)
        ensures
            a == self.addr,
    {
        self.addr
    }

    /// The bytes that ask for the value of `reg`.
    pub fn read_register(&self, reg: Register) -> (bytes: [u8; 1])
        ensures
            bytes@ == seq![reg.spec_addr()],
    {
        let bytes = [reg.addr()];
        assert(bytes@ =~= seq![reg.spec_addr()]);
        bytes
    }

    /// The bytes that write `data` to `reg`.
    pub fn write_register(&self, reg: Register, data: u8) -> (bytes: [u8; 2])
        ensures
            bytes@ == seq![reg.spec_addr(), data],
    {
        let bytes = [reg.addr(), data];
        assert(bytes@ =~= seq![reg.spec_addr(), data]);
        bytes
    }

    /// The bytes that leave or enter shutdown, given the present value
    /// `config` of the configuration register: leaving sets its lowest bit,
    /// entering writes it back as it is.
    pub fn set_shutdown(&self, config: u8, shutdown: bool) -> (bytes: [u8; 2])
        ensures
            bytes@ == seq![
                Register::Configuration.spec_addr(),
                config | (if shutdown {
                    0u8
                } else {
                    1u8
                }),
            ],
    {
        self.write_register(
            Register::Configuration,
            config | if shutdown {
                0u8
            } else {
                1u8
            },
        )
    }

    /// The bytes that switch the display test on or off.
    pub fn set_display_test(&self, test: bool) -> (bytes: [u8; 2])
        ensures
            bytes@ == seq![
                Register::DisplayTest.spec_addr(),
                if test {
                    1u8
                } else {
                    0u8
                },
            ],
    {
        self.write_register(
            Register::DisplayTest,
            if test {
                1
            } else {
                0
            },
        )
    }

    /// The bytes that set the intensity, from 0 to 63.
    pub fn set_intensity(&self, intensity: u8) -> (bytes: [u8; 2])
        requires
            intensity <= 0x3f,
        ensures
            bytes@ == seq![Register::Intensity.spec_addr(), intensity],
    {
        self.write_register(Register::Intensity, intensity)
    }

    /// The bytes that set how many digits are scanned.
    pub fn set_scan_limit(&self, limit: ScanLimit) -> (bytes: [u8; 2])
        ensures
            bytes@ == seq![Register::ScanLimit.spec_addr(), limit.spec_value()],
    {
        self.write_register(Register::ScanLimit, limit.value())
    }

    /// The bytes that switch on decoding for the digits listed. The shift
    /// by the number of the fourth digit does not fit a byte, so that digit
    /// cannot be listed.
    pub fn set_decode_mode(&self, decode: &[Digit]) -> (bytes: [u8; 2])
        requires
            forall|i: int| 0 <= i < decode@.len() ==> #[trigger] decode@[i] != Digit::Digit3,
        ensures
            bytes@ == seq![Register::DecodeMode.spec_addr(), spec_decode_mode(decode@)],
    {
        let mut mode: u8 = 0;
        let n: usize = decode.len();
        let mut i: usize = 0;
        while i < n
            invariant
                0 <= i <= n,
                n == decode@.len(),
                forall|i: int| 0 <= i < decode@.len() ==> #[trigger] decode@[i] != Digit::Digit3,
                mode == spec_decode_mode(decode@.take(i as int)),
            decreases n - i,
        {
            assert(decode@.take(i + 1).drop_last() =~= decode@.take(i as int));
            assert(decode@[i as int] != Digit::Digit3);
            mode = mode | (1u8 << decode[i].number());
            i += 1;
        }
        assert(decode@.take(n as int) =~= decode@);
        self.write_register(Register::DecodeMode, mode)
    }

    /// The bytes that write `value` to a digit.
    pub fn set_digit(&self, digit: Digit, value: u8) -> (bytes: [u8; 2])
        ensures
            bytes@ == seq![digit.spec_as_reg().spec_addr(), value],
    {
        self.write_register(digit.as_reg(), value)
    }

    /// The bytes that write four characters at once: the command byte is
    /// the address of the first digit.
    pub fn set_segs(&self, s: Segs<5>) -> (bytes: [u8; 5])
        ensures
            bytes@ == s.0@.update(0, Register::Digit0.spec_addr()),
    {
        let mut buf = s.0;
        buf[0] = Register::Digit0.addr();
        buf
    }
}

} // verus!
