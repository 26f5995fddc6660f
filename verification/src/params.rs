//! The parameters from which the patterns are generated, and the edits the
//! knobs make to them.

use vstd::prelude::*;

verus! {

/// Bias added to the seed the user sees.
pub const SEED_BASE: u32 = 0x616c_6773;

/// Largest seed the user can choose.
pub const SEED_MAX: u32 = 9999;

/// Shortest pattern and track.
pub const LENGTH_MIN: u8 = 2;

/// Longest pattern and track.
pub const LENGTH_MAX: u8 = 64;

/// Parameters of one track.
#[derive(Clone, Copy, Debug, PartialEq, Eq, Structural)]
pub struct TrackParams {
    /// Number of active steps; zero leaves the choice to the generator.
    pub steps: u8,
    /// Number of steps in the track's loop.
    pub length: u8,
    /// Rotation of the track.
    pub offset: u8,
}

impl TrackParams {
    pub open spec fn wf(self) -> bool {
        &&& LENGTH_MIN <= self.length <= LENGTH_MAX
        &&& self.steps <= self.length
        &&& self.offset < self.length
    }
}

/// Parameters from which the patterns are generated.
#[verifier::ext_equal]
#[derive(Clone, Copy, Debug, PartialEq, Eq)]
pub struct Params {
    /// The user's seed plus [`SEED_BASE`].
    pub seed: u32,
    /// Number of steps in the shared loop.
    pub pattern_length: u8,
    pub tracks: [TrackParams; 4],
}

impl Params {
    pub open spec fn wf(self) -> bool {
        &&& SEED_BASE <= self.seed <= SEED_BASE + SEED_MAX
        &&& LENGTH_MIN <= self.pattern_length <= LENGTH_MAX
        &&& forall|i: int| 0 <= i < 4 ==> (#[trigger] self.tracks[i]).wf()
    }

    /// Executable form of [`Params::wf`].
    pub fn is_valid(&self) -> (b: bool)
        ensures
            b == self.wf(),
    {
        let mut ok: bool = SEED_BASE <= self.seed && self.seed <= SEED_BASE + SEED_MAX
            && LENGTH_MIN <= self.pattern_length && self.pattern_length <= LENGTH_MAX;
        let mut i: usize = 0;
        while i < 4
            invariant
                0 <= i <= 4,
                ok == (SEED_BASE <= self.seed <= SEED_BASE + SEED_MAX && LENGTH_MIN
                    <= self.pattern_length <= LENGTH_MAX && forall|j: int|
                    0 <= j < i ==> (#[trigger] self.tracks[j]).wf()),
            decreases 4 - i,
        {
            let t = self.tracks[i];
            if !(LENGTH_MIN <= t.length && t.length <= LENGTH_MAX && t.steps <= t.length && t.offset < t.length) {
                ok = false;
            }
            i += 1;
        }
        ok
    }
}

/// The seed after a turn by `x`, where the turn is accepted.
pub open spec fn spec_seed_edit(seed: u32, x: i8) -> Option<u32> {
    let n = seed - SEED_BASE + x;
    if 0 <= n <= SEED_MAX {
        Some((SEED_BASE + n) as u32)
    } else {
        None
    }
}

/// The pattern length after a turn by `x`, where the turn is accepted.
pub open spec fn spec_length_edit(length: u8, x: i8) -> Option<u8> {
    let n = length + x;
    if LENGTH_MIN <= n <= LENGTH_MAX {
        Some(n as u8)
    } else {
        None
    }
}

/// A track after its offset is turned by `x`: the offset wraps around at the
/// track's length.
pub open spec fn spec_offset_edit(t: TrackParams, x: i8) -> TrackParams {
    TrackParams { offset: ((t.offset + x) % (t.length as int)) as u8, ..t }
}

/// A track after its steps are turned by `x`.
///
/// Past the length the steps start again at zero on a track one step longer.
/// Below zero they become one less than the length, on a track one step
/// shorter. The length stays within its bounds, and the offset wraps around
/// at the new length.
pub open spec fn spec_steps_edit(t: TrackParams, x: i8) -> TrackParams {
    let n = t.steps + x;
    if n > t.length {
        TrackParams { steps: 0, length: if t.length < LENGTH_MAX { (t.length + 1) as u8 } else { LENGTH_MAX }, ..t }
    } else if n < 0 {
        let length = if t.length > LENGTH_MIN { (t.length - 1) as u8 } else { LENGTH_MIN };
        TrackParams { steps: (t.length - 1) as u8, length, offset: (t.offset as int % length as int) as u8 }
    } else {
        TrackParams { steps: n as u8, ..t }
    }
}

/// The seed after a turn by `x`, where the turn is accepted.
pub fn seed_edit(seed: u32, x: i8) -> (r: Option<u32>)
    requires
        SEED_BASE <= seed <= SEED_BASE + SEED_MAX,
    ensures
        r == spec_seed_edit(seed, x),
{
    let n: i64 = (seed - SEED_BASE) as i64 + x as i64;
    if 0 <= n && n <= SEED_MAX as i64 {
        Some(SEED_BASE + n as u32)
    } else {
        None
    }
}

/// The pattern length after a turn by `x`, where the turn is accepted.
pub fn length_edit(length: u8, x: i8) -> (r: Option<u8>)
    ensures
        r == spec_length_edit(length, x),
{
    let n: i16 = length as i16 + x as i16;
    if LENGTH_MIN as i16 <= n && n <= LENGTH_MAX as i16 {
        Some(n as u8)
    } else {
        None
    }
}

/// A track after its offset is turned by `x`.
pub fn offset_edit(t: TrackParams, x: i8) -> (r: TrackParams)
    requires
        t.length >= LENGTH_MIN,
    ensures
        r == spec_offset_edit(t, x),
        r.offset < t.length,
{
    let l: u32 = t.length as u32;
    let lifted: u32 = (t.offset as i32 + x as i32 + 128) as u32 + (l * 64 - 128);
    let n: u32 = lifted % l;
    proof {
        vstd::arithmetic::div_mod::lemma_mod_multiples_vanish(64, t.offset + x, l as int);
        assert(lifted as int == l * 64 + (t.offset + x));
    }
    TrackParams { steps: t.steps, length: t.length, offset: n as u8 }
}

/// A track after its steps are turned by `x`.
pub fn steps_edit(t: TrackParams, x: i8) -> (r: TrackParams)
    requires
        t.wf(),
    ensures
        r == spec_steps_edit(t, x),
        r.wf(),
{
    let mut n1: i16 = t.steps as i16 + x as i16;
    let mut n2: i16 = t.length as i16;
    let mut shrunk: bool = false;
    if n1 > n2 {
        n1 = 0;
        n2 += 1;
    }
    if n1 < 0 {
        n2 -= 1;
        n1 = n2;
        shrunk = true;
    }
    if n1 < 0 {
        n1 = 0;
    }
    if n2 < LENGTH_MIN as i16 {
        n2 = LENGTH_MIN as i16;
    }
    if n2 > LENGTH_MAX as i16 {
        n2 = LENGTH_MAX as i16;
    }
    if n1 > n2 {
        n1 = n2;
    }
    let length: u8 = n2 as u8;
    let offset: u8 = if shrunk {
        t.offset % length
    } else {
        t.offset
    };
    TrackParams { steps: n1 as u8, length, offset }
}

/// One step down from zero steps makes the track one step shorter and
/// fills it: the steps become the new length. An offset that stood at the
/// last step starts again at zero.
pub proof fn law_steps_wrap_shrink(t: TrackParams)
    requires
        t.wf(),
        t.steps == 0,
        t.length > LENGTH_MIN,
    ensures
        spec_steps_edit(t, -1i8).length == t.length - 1,
        spec_steps_edit(t, -1i8).steps == spec_steps_edit(t, -1i8).length,
        spec_steps_edit(t, -1i8).offset == (if t.offset == t.length - 1 {
            0
        } else {
            t.offset as int
        }),
        spec_steps_edit(t, -1i8).wf(),
{
    let m: int = t.length as int - 1;
    let o: int = t.offset as int;
    assert(o % m == (if o == m {
        0
    } else {
        o
    })) by (nonlinear_arith)
        requires
            0 <= o <= m,
            m >= 2,
    ;
}

/// One step up from a full track makes the track one step longer and
/// empties it.
pub proof fn law_steps_wrap_grow(t: TrackParams)
    requires
        t.wf(),
        t.steps == t.length,
        t.length < LENGTH_MAX,
    ensures
        spec_steps_edit(t, 1i8).length == t.length + 1,
        spec_steps_edit(t, 1i8).steps == 0,
{
}

} // verus!
