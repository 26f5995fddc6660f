//! Where a track stands: its playhead under its sync policy, and its
//! phase between two ticks.

use vstd::prelude::*;
use crate::params::{LENGTH_MAX, LENGTH_MIN};
use crate::state::TrackSync;

verus! {

pub open spec fn spec_min(a: int, b: int) -> int {
    if a <= b {
        a
    } else {
        b
    }
}

/// The playhead of a track under its sync policy.
pub open spec fn spec_track_playhead(
    sync: TrackSync,
    playhead: u64,
    tick_count: u64,
    pattern_length: u8,
    length: u8,
) -> usize {
    match sync {
        TrackSync::Sync => ((playhead as int % pattern_length as int) % spec_min(
            pattern_length as int,
            length as int,
        )) as usize,
        TrackSync::Free => (playhead as int % length as int) as usize,
        TrackSync::Loop => (tick_count as int % length as int) as usize,
    }
}

/// The playhead of a track under its sync policy.
pub fn track_playhead_of(
    sync: TrackSync,
    playhead: u64,
    tick_count: u64,
    pattern_length: u8,
    length: u8,
) -> (r: usize)
    requires
        LENGTH_MIN <= pattern_length <= LENGTH_MAX,
        LENGTH_MIN <= length <= LENGTH_MAX,
    ensures
        r == spec_track_playhead(sync, playhead, tick_count, pattern_length, length),
        r < length,
{
    match sync {
        TrackSync::Sync => {
            let least: u8 = if pattern_length <= length {
                pattern_length
            } else {
                length
            };
            ((playhead % pattern_length as u64) % least as u64) as usize
        },
        TrackSync::Free => (playhead % length as u64) as usize,
        TrackSync::Loop => (tick_count % length as u64) as usize,
    }
}

/// The phase that one tick advances on a track of `length` steps.
pub open spec fn spec_per_tick(length: u8) -> u64 {
    (u32::MAX as int / length as int) as u64
}

/// How far into a tick the phase of a track has moved: the time since the
/// last tick, at most the predicted interval, as that share of the phase
/// of one tick.
pub open spec fn spec_interpolation(lapsed: int, predicted: int, per_tick: int) -> int {
    if predicted > 0 {
        spec_min(lapsed, predicted) * per_tick / predicted
    } else {
        0
    }
}

/// The 32-bit phase of a track: whole ticks played plus the interpolation,
/// wrapping around.
pub open spec fn spec_phase(playhead: usize, per_tick: u64, lapsed: int, predicted: int) -> u32 {
    ((playhead * per_tick + spec_interpolation(lapsed, predicted, per_tick as int)) % 0x1_0000_0000) as u32
}

/// How far into a tick the phase of a track has moved.
pub fn interpolation(lapsed: u64, predicted: i64, per_tick: u64) -> (r: u64)
    requires
        per_tick <= u32::MAX,
    ensures
        r == spec_interpolation(lapsed as int, predicted as int, per_tick as int),
        r <= per_tick,
{
    if predicted > 0 {
        let p: u128 = predicted as u128;
        let least: u128 = if lapsed as u128 <= p {
            lapsed as u128
        } else {
            p
        };
        let t: u128 = per_tick as u128;
        assert(least * t <= p * t <= 0x8000_0000_0000_0000 * 0x1_0000_0000) by (nonlinear_arith)
            requires
                0 <= least <= p,
                p <= 0x8000_0000_0000_0000,
                0 <= t <= 0x1_0000_0000,
        ;
        let r: u128 = least * t / p;
        assert(0 <= (least * t) / (p as int) <= t) by (nonlinear_arith)
            requires
                0 <= least <= p,
                0 < p,
                0 <= t,
        ;
        r as u64
    } else {
        0
    }
}

/// The 32-bit phase of a track.
pub fn phase(playhead: usize, per_tick: u64, lapsed: u64, predicted: i64) -> (r: u32)
    requires
        playhead < 64,
        per_tick <= u32::MAX,
    ensures
        r == spec_phase(playhead, per_tick, lapsed as int, predicted as int),
{
    assert(playhead * per_tick <= 63 * 0xffff_ffff) by (nonlinear_arith)
        requires
            0 <= playhead <= 63,
            0 <= per_tick <= 0xffff_ffff,
    ;
    let whole: u64 = playhead as u64 * per_tick;
    let sum: u64 = whole + interpolation(lapsed, predicted, per_tick);
    (sum % 0x1_0000_0000) as u32
}

} // verus!
