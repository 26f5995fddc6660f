//! What the four-character display shows for the state.

use vstd::prelude::*;
use crate::lfo::Mode;
use crate::max6958::{Seg, Segs, Segs4};
use crate::params::SEED_BASE;
use crate::state::{InputMode, State, TrackSync};

verus! {

/// The word for an oscillator mode that is shown as a word.
pub open spec fn spec_mode_word(mode: Mode) -> Seq<u8> {
    match mode {
        Mode::Random => seq![114u8, 97u8, 110u8, 100u8],  // "rand"
        Mode::Sine => seq![115u8, 105u8, 110u8, 101u8],  // "sine"
        Mode::Sine90 => seq![115u8, 105u8, 57u8, 48u8],  // "si90"
        Mode::Sine180 => seq![115u8, 49u8, 56u8, 48u8],  // "s180"
        Mode::Triangle => seq![116u8, 114u8, 105u8, 97u8],  // "tria"
        Mode::Triangle90 => seq![116u8, 114u8, 57u8, 48u8],  // "tr90"
        Mode::Triangle180 => seq![116u8, 49u8, 56u8, 48u8],  // "t180"
        Mode::Square => seq![112u8, 117u8, 108u8, 115u8],  // "puls"
        Mode::Square90 => seq![112u8, 117u8, 57u8, 48u8],  // "pu90"
        Mode::Square180 => seq![112u8, 49u8, 56u8, 48u8],  // "p180"
        _ => Seq::empty(),
    }
}

/// The word for a sync policy.
pub open spec fn spec_sync_word(sync: TrackSync) -> Seq<u8> {
    match sync {
        TrackSync::Sync => seq![115u8, 121u8, 110u8, 99u8],  // "sync"
        TrackSync::Free => seq![102u8, 114u8, 101u8, 101u8],  // "free"
        TrackSync::Loop => seq![108u8, 111u8, 111u8, 112u8],  // "loop"
    }
}

/// The segment that frame `i` of the running animation lights: one after
/// the other around the outline of a digit.
pub open spec fn spec_loop_frame(i: int) -> Seg {
    if i == 0 {
        Seg::SegA
    } else if i == 1 {
        Seg::SegB
    } else if i == 2 {
        Seg::SegC
    } else if i == 3 {
        Seg::SegD
    } else if i == 4 {
        Seg::SegE
    } else {
        Seg::SegF
    }
}

/// A rising sawtooth, drawn with corners.
pub open spec fn spec_saw_up() -> Seq<u8> {
    seq![
        0u8,
        Seg::SegA.spec_bits(),
        Seg::CornerMru.spec_bits(),
        Seg::SegG.spec_bits(),
        Seg::CornerBr.spec_bits(),
    ]
}

/// A falling sawtooth, drawn with corners.
pub open spec fn spec_saw_dn() -> Seq<u8> {
    seq![
        0u8,
        Seg::SegD.spec_bits(),
        Seg::CornerMrd.spec_bits(),
        Seg::SegG.spec_bits(),
        Seg::CornerTr.spec_bits(),
    ]
}

/// A rising sawtooth, drawn with corners.
pub fn saw_up() -> (segs: Segs4)
    ensures
        segs.0@ == spec_saw_up(),
{
    let segs = Segs(
        [0u8, Seg::SegA.bits(), Seg::CornerMru.bits(), Seg::SegG.bits(), Seg::CornerBr.bits()],
    );
    assert(segs.0@ =~= spec_saw_up());
    segs
}

/// A falling sawtooth, drawn with corners.
pub fn saw_dn() -> (segs: Segs4)
    ensures
        segs.0@ == spec_saw_dn(),
{
    let segs = Segs(
        [0u8, Seg::SegD.bits(), Seg::CornerMrd.bits(), Seg::SegG.bits(), Seg::CornerTr.bits()],
    );
    assert(segs.0@ =~= spec_saw_dn());
    segs
}

/// The segment that frame `i` of the running animation lights.
pub fn loop_frame(i: usize) -> (seg: Seg)
    ensures
        seg == spec_loop_frame(i as int),
{
    if i == 0 {
        Seg::SegA
    } else if i == 1 {
        Seg::SegB
    } else if i == 2 {
        Seg::SegC
    } else if i == 3 {
        Seg::SegD
    } else if i == 4 {
        Seg::SegE
    } else {
        Seg::SegF
    }
}

/// The word for an oscillator mode.
fn mode_word(mode: Mode) -> (word: [u8; 4])
    requires
        mode != Mode::SawUp,
        mode != Mode::SawDown,
    ensures
        word@ == spec_mode_word(mode),
{
    let word: [u8; 4] = match mode {
        Mode::Random => [114u8, 97u8, 110u8, 100u8],  // "rand"
        Mode::Sine => [115u8, 105u8, 110u8, 101u8],  // "sine"
        Mode::Sine90 => [115u8, 105u8, 57u8, 48u8],  // "si90"
        Mode::Sine180 => [115u8, 49u8, 56u8, 48u8],  // "s180"
        Mode::Triangle => [116u8, 114u8, 105u8, 97u8],  // "tria"
        Mode::Triangle90 => [116u8, 114u8, 57u8, 48u8],  // "tr90"
        Mode::Triangle180 => [116u8, 49u8, 56u8, 48u8],  // "t180"
        Mode::Square => [112u8, 117u8, 108u8, 115u8],  // "puls"
        Mode::Square90 => [112u8, 117u8, 57u8, 48u8],  // "pu90"
        _ => [112u8, 49u8, 56u8, 48u8],  // "p180"
    };
    assert(word@ =~= spec_mode_word(mode));
    word
}

/// The word for a sync policy.
fn sync_word(sync: TrackSync) -> (word: [u8; 4])
    ensures
        word@ == spec_sync_word(sync),
{
    let word: [u8; 4] = match sync {
        TrackSync::Sync => [115u8, 121u8, 110u8, 99u8],  // "sync"
        TrackSync::Free => [102u8, 114u8, 101u8, 101u8],  // "free"
        TrackSync::Loop => [108u8, 111u8, 111u8, 112u8],  // "loop"
    };
    assert(word@ =~= spec_sync_word(sync));
    word
}

/// Every character of the words shown has a pattern.
proof fn lemma_words_have_patterns()
    ensures
        forall|mode: Mode, i: int|
            0 <= i < spec_mode_word(mode).len() ==> Seg::spec_from(#[trigger] spec_mode_word(mode)[i]) is Some,
        forall|sync: TrackSync, i: int|
            0 <= i < spec_sync_word(sync).len() ==> Seg::spec_from(#[trigger] spec_sync_word(sync)[i]) is Some,
{
}

impl State {
    /// The bytes of the display for the present mode.
    ///
    /// `Run` shows the playhead in two digits between two copies of the
    /// running animation. `Seed`, `Length` and `Offset` show their number,
    /// `Fate` the word "fate", `Lfo` the waveform's word or drawing,
    /// `TrackSync` the policy's word. `Steps` shows the steps in the first
    /// two bytes and the length in the next two.
    pub open spec fn spec_to_display(self) -> Seq<u8> {
        match self.input_mode {
            InputMode::Run => {
                let playhead = self.spec_playhead() as int;
                let c = spec_loop_frame(playhead % 6).spec_bits();
                seq![c, Seg::spec_code((playhead % 10) as u8), Seg::spec_code((playhead / 10 % 10) as u8), c, 0u8]
            },
            InputMode::Seed => Segs::<5>::spec_from_number((self.params.seed - SEED_BASE) as u32),
            InputMode::Fate => Segs::<5>::spec_from_bytes(seq![102u8, 97u8, 116u8, 101u8]),  // "fate"
            InputMode::Length => Segs::<5>::spec_from_number(self.params.pattern_length as u32),
            InputMode::Offset(tr) => Segs::<5>::spec_from_number(self.params.tracks[tr as int].offset as u32),
            InputMode::Lfo(tr) => match self.lfo[tr as int].mode {
                Mode::SawUp => spec_saw_up(),
                Mode::SawDown => spec_saw_dn(),
                mode => Segs::<5>::spec_from_bytes(spec_mode_word(mode)),
            },
            InputMode::Steps(tr) => {
                let t = self.params.tracks[tr as int];
                seq![
                    Seg::spec_code((t.steps % 10) as u8),
                    Seg::spec_code((t.steps / 10 % 10) as u8),
                    Seg::spec_code((t.length % 10) as u8),
                    Seg::spec_code((t.length / 10 % 10) as u8),
                    0u8,
                ]
            },
            InputMode::TrackSync(tr) => Segs::<5>::spec_from_bytes(spec_sync_word(self.track_sync[tr as int])),
        }
    }

    /// What the display shows: see [`State::spec_to_display`].
    pub fn to_display(&self) -> (segs: Segs4)
        requires
            self.wf(),
        ensures
            segs.0@ == self.spec_to_display(),
    {
        proof {
            lemma_words_have_patterns();
        }
        match self.input_mode {
            InputMode::Run => {
                let playhead = self.playhead();
                let c = loop_frame(playhead % 6).bits();
                let segs = Segs(
                    [
                        c,
                        Seg::from((playhead % 10) as u8).bits(),
                        Seg::from((playhead / 10 % 10) as u8).bits(),
                        c,
                        0u8,
                    ],
                );
                assert(segs.0@ =~= self.spec_to_display());
                segs
            },
            InputMode::Seed => Segs::<5>::from_number(self.params.seed - SEED_BASE),
            InputMode::Fate => {
                let word: [u8; 4] = [102u8, 97u8, 116u8, 101u8];  // "fate"
                assert(word@ =~= seq![102u8, 97u8, 116u8, 101u8]);
                Segs::<5>::from_bytes(word.as_slice())
            },
            InputMode::Length => Segs::<5>::from_number(self.params.pattern_length as u32),
            InputMode::Offset(tr) => Segs::<5>::from_number(self.params.tracks[tr].offset as u32),
            InputMode::Lfo(tr) => {
                let mode = self.lfo[tr].mode;
                match mode {
                    Mode::SawUp => saw_up(),
                    Mode::SawDown => saw_dn(),
                    _ => {
                        let word = mode_word(mode);
                        Segs::<5>::from_bytes(word.as_slice())
                    },
                }
            },
            InputMode::Steps(tr) => {
                let t = self.params.tracks[tr];
                let segs = Segs(
                    [
                        Seg::from(t.steps % 10).bits(),
                        Seg::from(t.steps / 10 % 10).bits(),
                        Seg::from(t.length % 10).bits(),
                        Seg::from(t.length / 10 % 10).bits(),
                        0u8,
                    ],
                );
                assert(segs.0@ =~= self.spec_to_display());
                segs
            },
            InputMode::TrackSync(tr) => {
                let word = sync_word(self.track_sync[tr]);
                Segs::<5>::from_bytes(word.as_slice())
            },
        }
    }
}

} // verus!
