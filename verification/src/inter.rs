//! The register values that configure the interrupt of a GPIO input.
//!
//! A GPIO block has one bit per pin in its interrupt mask (IMR), status
//! (ISR) and edge-select (EDGE_SEL) registers, and two bits per pin in its
//! interrupt configuration registers: ICR1 for pins 0 to 15, ICR2 for pins
//! 16 to 31. Nothing here touches the registers: the present value goes in
//! and the value to write comes out.

use vstd::prelude::*;

verus! {

/// When a GPIO input raises its interrupt.
#[derive(Clone, Copy, Debug, PartialEq, Eq, Structural)]
pub enum InterruptConfiguration {
    LowLevel,
    HighLevel,
    RisingEdge,
    FallingEdge,
    EitherEdge,
}

impl InterruptConfiguration {
    /// The configuration's number; below four, the value of the pin's two
    /// bits in its interrupt configuration register.
    pub open spec fn spec_code(self) -> u32 {
        match self {
            InterruptConfiguration::LowLevel => 0,
            InterruptConfiguration::HighLevel => 1,
            InterruptConfiguration::RisingEdge => 2,
            InterruptConfiguration::FallingEdge => 3,
            InterruptConfiguration::EitherEdge => 4,
        }
    }

    /// The configuration's number.
    pub fn code(&self) -> (c: u32)
        ensures
            c == self.spec_code(),
    {
        match self {
            InterruptConfiguration::LowLevel => 0,
            InterruptConfiguration::HighLevel => 1,
            InterruptConfiguration::RisingEdge => 2,
            InterruptConfiguration::FallingEdge => 3,
            InterruptConfiguration::EitherEdge => 4,
        }
    }
}

/// The registers that hold the interrupt configuration of a GPIO block.
#[derive(Clone, Copy, Debug, PartialEq, Eq, Structural)]
pub struct EdgeRegisters {
    pub edge_sel: u32,
    pub icr1: u32,
    pub icr2: u32,
}

/// The bit of the pin at `offset` in the one-bit-per-pin registers.
pub open spec fn spec_mask(offset: u8) -> u32 {
    1u32 << offset
}

/// Where the two bits of the pin at `offset` begin in its interrupt
/// configuration register.
pub open spec fn spec_icr_offset(offset: u8) -> u32 {
    ((offset % 16) * 2) as u32
}

/// An interrupt configuration register with the two bits at `icr_offset`
/// replaced by `icr`.
pub open spec fn spec_icr_modify(reg: u32, icr_offset: u32, icr: u32) -> u32 {
    reg & !(3u32 << icr_offset) | (icr << icr_offset)
}

/// The registers after the pin at `offset` is configured.
///
/// For either edge the pin's edge-select bit is set and nothing else
/// changes. For the other configurations the bit is cleared and the pin's
/// two bits in its interrupt configuration register take the
/// configuration's number.
pub open spec fn spec_set_interrupt_configuration(
    regs: EdgeRegisters,
    offset: u8,
    configuration: InterruptConfiguration,
) -> EdgeRegisters {
    if configuration == InterruptConfiguration::EitherEdge {
        EdgeRegisters { edge_sel: regs.edge_sel | spec_mask(offset), ..regs }
    } else if offset < 16 {
        EdgeRegisters {
            edge_sel: regs.edge_sel & !spec_mask(offset),
            icr1: spec_icr_modify(regs.icr1, spec_icr_offset(offset), configuration.spec_code()),
            ..regs
        }
    } else {
        EdgeRegisters {
            edge_sel: regs.edge_sel & !spec_mask(offset),
            icr2: spec_icr_modify(regs.icr2, spec_icr_offset(offset), configuration.spec_code()),
            ..regs
        }
    }
}

/// The bit of the pin at `offset` in the one-bit-per-pin registers.
pub fn mask(offset: u8) -> (m: u32)
    requires
        offset < 32,
    ensures
        m == spec_mask(offset),
{
    1u32 << offset
}

/// The interrupt mask register with the interrupt of the pin at `offset`
/// enabled or disabled.
pub fn set_interrupt_enable(imr: u32, offset: u8, enable: bool) -> (r: u32)
    requires
        offset < 32,
    ensures
        r == (if enable {
            imr | spec_mask(offset)
        } else {
            imr & !spec_mask(offset)
        }),
{
    if enable {
        imr | mask(offset)
    } else {
        imr & !mask(offset)
    }
}

/// Whether the bit of the pin at `offset` is set in a one-bit-per-pin
/// register: in the mask register, whether its interrupt is enabled; in
/// the status register, whether it raised its interrupt.
pub fn is_interrupt_bit(reg: u32, offset: u8) -> (b: bool)
    requires
        offset < 32,
    ensures
        b == (reg & spec_mask(offset) != 0),
{
    reg & mask(offset) != 0
}

proof fn lemma_icr_modify(reg: u32, icr_offset: u32, icr: u32)
    by (bit_vector)
    requires
        icr_offset <= 30,
        icr < 4,
    ensures
        ((reg & !(3u32 << icr_offset) | (icr << icr_offset)) >> icr_offset) & 3 == icr,
        (reg & !(3u32 << icr_offset) | (icr << icr_offset)) & !(3u32 << icr_offset) == reg & !(3u32 << icr_offset),
{
}

/// An interrupt configuration register with the two bits at `icr_offset`
/// replaced by `icr`: the pin's two bits hold `icr`, and all others are as
/// before.
pub fn icr_modify(reg: u32, icr_offset: u32, icr: u32) -> (r: u32)
    requires
        icr_offset <= 30,
        icr < 4,
    ensures
        r == spec_icr_modify(reg, icr_offset, icr),
        (r >> icr_offset) & 3 == icr,
        r & !(3u32 << icr_offset) == reg & !(3u32 << icr_offset),
{
    proof {
        lemma_icr_modify(reg, icr_offset, icr);
    }
    reg & !(3u32 << icr_offset) | (icr << icr_offset)
}

/// Configures the interrupt of the pin at `offset`: see
/// [`spec_set_interrupt_configuration`].
pub fn set_interrupt_configuration(
    regs: EdgeRegisters,
    offset: u8,
    configuration: InterruptConfiguration,
) -> (r: EdgeRegisters)
    requires
        offset < 32,
    ensures
        r == spec_set_interrupt_configuration(regs, offset, configuration),
{
    if configuration == InterruptConfiguration::EitherEdge {
        EdgeRegisters { edge_sel: regs.edge_sel | mask(offset), ..regs }
    } else {
        let icr = configuration.code();
        let icr_offset: u32 = ((offset % 16) * 2) as u32;
        if offset < 16 {
            EdgeRegisters {
                edge_sel: regs.edge_sel & !mask(offset),
                icr1: icr_modify(regs.icr1, icr_offset, icr),
                ..regs
            }
        } else {
            EdgeRegisters {
                edge_sel: regs.edge_sel & !mask(offset),
                icr2: icr_modify(regs.icr2, icr_offset, icr),
                ..regs
            }
        }
    }
}

} // verus!
