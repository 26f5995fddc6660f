//! Re-randomization of all parameters from a handful of random draws.
//!
//! Each track takes six draws, two each for its length, its steps and its
//! offset: the first of a pair decides between two ways, the second picks
//! the value. One more draw gives the seed.

use vstd::prelude::*;
use crate::lfo::lemma_quotient_bound;
use crate::params::{TrackParams, LENGTH_MAX, LENGTH_MIN, SEED_BASE, SEED_MAX};
use crate::playhead::spec_min;

verus! {

/// The length that two random draws give a track.
///
/// The first draw decides between a power of two from 2 to 64 and one of
/// sixteen other lengths, the second picks it.
pub open spec fn spec_fate_length(x: u32, y: u32) -> u8 {
    if x < u32::MAX / 2 {
        let n = y / (u32::MAX / 6);
        if n == 0 {
            2
        } else if n == 1 {
            4
        } else if n == 2 {
            8
        } else if n == 3 {
            16
        } else if n == 4 {
            32
        } else {
            64
        }
    } else {
        spec_odd_length(spec_min(y as int / (u32::MAX as int / 16), 15))
    }
}

/// The lengths other than powers of two that a re-randomization picks from.
pub open spec fn spec_odd_length(i: int) -> u8 {
    if i == 0 {
        3
    } else if i == 1 {
        5
    } else if i == 2 {
        6
    } else if i == 3 {
        7
    } else if i == 4 {
        9
    } else if i == 5 {
        10
    } else if i == 6 {
        11
    } else if i == 7 {
        12
    } else if i == 8 {
        13
    } else if i == 9 {
        14
    } else if i == 10 {
        15
    } else if i == 11 {
        17
    } else if i == 12 {
        18
    } else if i == 13 {
        19
    } else if i == 14 {
        20
    } else {
        24
    }
}

/// The steps that two random draws give a track of `length` steps: zero half
/// of the time, else in proportion to the second draw, at most `length`.
pub open spec fn spec_fate_steps(x: u32, y: u32, length: u8) -> u8 {
    if x < u32::MAX / 2 {
        0
    } else {
        spec_min(y as int / (u32::MAX as int / (length as int + 1)), length as int) as u8
    }
}

/// The offset that two random draws give a track of `length` steps: zero
/// half of the time, else in proportion to the second draw, at most the
/// last step.
pub open spec fn spec_fate_offset(x: u32, y: u32, length: u8) -> u8 {
    if x < u32::MAX / 2 {
        0
    } else {
        spec_min(y as int / (u32::MAX as int / (length as int)), length as int - 1) as u8
    }
}

/// The track that six random draws give.
pub open spec fn spec_fate_track(d: Seq<u32>, at: int) -> TrackParams {
    let length = spec_fate_length(d[at], d[at + 1]);
    TrackParams {
        length,
        steps: spec_fate_steps(d[at + 2], d[at + 3], length),
        offset: spec_fate_offset(d[at + 4], d[at + 5], length),
    }
}

/// The seed that a random draw gives.
pub open spec fn spec_fate_seed(y: u32) -> u32 {
    (y / (u32::MAX / SEED_MAX) + SEED_BASE) as u32
}

/// The lengths other than powers of two that a re-randomization picks from.
pub fn odd_length(i: u32) -> (r: u8)
    ensures
        r == spec_odd_length(i as int),
        3 <= r <= 24,
{
    if i == 0 {
        3
    } else if i == 1 {
        5
    } else if i == 2 {
        6
    } else if i == 3 {
        7
    } else if i == 4 {
        9
    } else if i == 5 {
        10
    } else if i == 6 {
        11
    } else if i == 7 {
        12
    } else if i == 8 {
        13
    } else if i == 9 {
        14
    } else if i == 10 {
        15
    } else if i == 11 {
        17
    } else if i == 12 {
        18
    } else if i == 13 {
        19
    } else if i == 14 {
        20
    } else {
        24
    }
}

/// The length that two random draws give a track.
pub fn fate_length(x: u32, y: u32) -> (r: u8)
    ensures
        r == spec_fate_length(x, y),
        LENGTH_MIN <= r <= LENGTH_MAX,
{
    if x < u32::MAX / 2 {
        let n: u32 = y / (u32::MAX / 6);
        if n == 0 {
            2
        } else if n == 1 {
            4
        } else if n == 2 {
            8
        } else if n == 3 {
            16
        } else if n == 4 {
            32
        } else {
            64
        }
    } else {
        let i: u32 = y / (u32::MAX / 16);
        odd_length(if i > 15 {
            15
        } else {
            i
        })
    }
}

/// The steps that two random draws give a track of `length` steps.
pub fn fate_steps(x: u32, y: u32, length: u8) -> (r: u8)
    requires
        LENGTH_MIN <= length <= LENGTH_MAX,
    ensures
        r == spec_fate_steps(x, y, length),
        r <= length,
{
    if x < u32::MAX / 2 {
        0
    } else {
        proof {
            lemma_quotient_bound(y, length as int + 1);
        }
        let s: u32 = y / (u32::MAX / (length as u32 + 1));
        if s > length as u32 {
            length
        } else {
            s as u8
        }
    }
}

/// The offset that two random draws give a track of `length` steps.
pub fn fate_offset(x: u32, y: u32, length: u8) -> (r: u8)
    requires
        LENGTH_MIN <= length <= LENGTH_MAX,
    ensures
        r == spec_fate_offset(x, y, length),
        r < length,
{
    if x < u32::MAX / 2 {
        0
    } else {
        proof {
            lemma_quotient_bound(y, length as int);
        }
        let o: u32 = y / (u32::MAX / length as u32);
        if o >= length as u32 {
            length - 1
        } else {
            o as u8
        }
    }
}

/// The track that the six draws from position `at` give.
pub fn fate_track(draws: &[u32; 25], at: usize) -> (r: TrackParams)
    requires
        at + 5 < 25,
    ensures
        r == spec_fate_track(draws@, at as int),
        r.wf(),
{
    let length = fate_length(draws[at], draws[at + 1]);
    TrackParams {
        length,
        steps: fate_steps(draws[at + 2], draws[at + 3], length),
        offset: fate_offset(draws[at + 4], draws[at + 5], length),
    }
}

/// The seed that a random draw gives.
pub fn fate_seed(y: u32) -> (r: u32)
    ensures
        r == spec_fate_seed(y),
        SEED_BASE <= r <= SEED_BASE + SEED_MAX,
{
    y / (u32::MAX / SEED_MAX) + SEED_BASE
}

/// Six random draws give a track within the bounds.
pub proof fn lemma_fate_track_wf(d: Seq<u32>, at: int)
    ensures
        spec_fate_track(d, at).wf(),
{
    let length = spec_fate_length(d[at], d[at + 1]);
    assert(LENGTH_MIN <= length <= LENGTH_MAX);
    lemma_quotient_bound(d[at + 3], length as int + 1);
    lemma_quotient_bound(d[at + 5], length as int);
}

} // verus!
