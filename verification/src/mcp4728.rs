//! The bytes that set the four channels of an MCP4728 12-bit DAC.

use vstd::prelude::*;

verus! {

/// The chip's 7-bit bus address with its three programmable bits at zero.
pub const ADDRESS: u8 = 0x60;

/// Largest value a channel takes.
pub const CHANNEL_MAX: u16 = 4095;

/// The four channels and the values they were last set to.
#[derive(Clone, Copy, Debug, PartialEq, Eq)]
pub struct Mcp4728 {
    pub values: [u16; 4],
}

/// The values after an update: a channel that is given a value takes it,
/// the others keep theirs.
pub open spec fn spec_updated(values: Seq<u16>, update: Seq<Option<u16>>) -> Seq<u16> {
    Seq::new(
        4,
        |i: int|
            match update[i] {
                Some(v) => v,
                None => values[i],
            },
    )
}

/// The eight bytes that write four values: for each channel the high
/// four bits, with the power-down bits at zero, then the low eight bits.
pub open spec fn spec_bytes(values: Seq<u16>) -> Seq<u8> {
    Seq::new(
        8,
        |i: int|
            if i % 2 == 0 {
                (values[i / 2] / 256) as u8
            } else {
                (values[i / 2] % 256) as u8
            },
    )
}

impl Mcp4728 {
    pub open spec fn wf(self) -> bool {
        forall|i: int| 0 <= i < 4 ==> (#[trigger] self.values[i]) <= CHANNEL_MAX
    }

    /// All channels at zero.
    pub fn new() -> (dac: Mcp4728)
        ensures
            dac.wf(),
            dac.values@ == seq![0u16, 0u16, 0u16, 0u16],
    {
        let dac = Mcp4728 { values: [0u16; 4] };
        assert(dac.values@ =~= seq![0u16, 0u16, 0u16, 0u16]);
        dac
    }

    /// Takes in new values for some of the channels and returns the bytes
    /// to write to the chip at [`ADDRESS`]: always all four channels.
    pub fn set_channels(&mut self, update: &[Option<u16>; 4]) -> (bytes: [u8; 8])
        requires
            old(self).wf(),
            forall|i: int| 0 <= i < 4 ==> ((#[trigger] update[i]) matches Some(v) ==> v <= CHANNEL_MAX),
        ensures
            final(self).wf(),
            final(self).values@ == spec_updated(old(self).values@, update@),
            bytes@ == spec_bytes(final(self).values@),
    {
        let mut i: usize = 0;
        while i < 4
            invariant
                0 <= i <= 4,
                self.wf(),
                forall|i: int| 0 <= i < 4 ==> ((#[trigger] update[i]) matches Some(v) ==> v <= CHANNEL_MAX),
                forall|j: int| 0 <= j < i ==> #[trigger] self.values[j] == spec_updated(old(self).values@, update@)[j],
                forall|j: int| i <= j < 4 ==> #[trigger] self.values[j] == old(self).values[j],
            decreases 4 - i,
        {
            match update[i] {
                Some(v) => {
                    self.values[i] = v;
                },
                None => {},
            }
            i += 1;
        }
        assert(self.values@ =~= spec_updated(old(self).values@, update@));
        let v = &self.values;
        let bytes: [u8; 8] = [
            (v[0] / 256) as u8,
            (v[0] % 256) as u8,
            (v[1] / 256) as u8,
            (v[1] % 256) as u8,
            (v[2] / 256) as u8,
            (v[2] % 256) as u8,
            (v[3] / 256) as u8,
            (v[3] % 256) as u8,
        ];
        assert(bytes@ =~= spec_bytes(self.values@));
        bytes
    }
}

} // verus!
