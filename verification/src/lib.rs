//! Real-time control core of a four-track generative step sequencer.
//!
//! Captured input edges and encoder bit patterns are decoded into a bounded
//! queue of operations, the operations evolve the pattern parameters and
//! playheads, and the resulting state is rendered back into gate pulses and
//! modulation values. Everything that touches hardware or an outside
//! generator arrives here as a plain value and leaves as one.

use vstd::prelude::*;

pub mod clock;
pub mod display;
pub mod encoder;
pub mod fate;
pub mod input;
pub mod inter;
pub mod irq;
pub mod lfo;
pub mod max6958;
pub mod mcp23s17;
pub mod mcp4728;
pub mod output;
pub mod pacing;
pub mod params;
pub mod phase;
pub mod playhead;
pub mod queue;
pub mod state;

verus! {

/// Counts of the monotonic clock per second (600 MHz).
pub const CPU_SPEED: u32 = 600_000_000;

} // verus!
