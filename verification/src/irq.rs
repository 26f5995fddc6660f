//! What the interrupt handlers capture and how the main loop takes it over.
//!
//! The handlers of the clock and reset lines note that their line fired,
//! the clock's with the time. The handler of an I/O expander records what
//! the expander reports in a bounded queue: where a reading arrives at a
//! full queue, the oldest one is dropped. The main loop first looks whether
//! anything was captured at all, and only then takes it over, one reading
//! of each expander per pass.

use vstd::prelude::*;
use crate::clock::Time;
use crate::input::Captured;
use crate::queue::{captured, push_read, read_slice, remove_read, IoExtReads};

verus! {

/// The queue after `reading` arrived: it stands last, and the oldest
/// reading made room for it if the queue was full.
pub open spec fn spec_record(q: Seq<u16>, reading: u16) -> Seq<u16> {
    if q.len() >= 64 {
        q.drop_first().push(reading)
    } else {
        q.push(reading)
    }
}

/// The queue after an interrupt of the expander.
///
/// The expander's lines are inverted, so both registers are complemented.
/// The capture register's value is recorded where the queue is empty or
/// its newest reading equals it; the input register's value is recorded
/// where it differs from the capture register's.
pub open spec fn spec_capture(q: Seq<u16>, int_cap: u16, inputs: u16) -> Seq<u16> {
    let x = !int_cap;
    let y = !inputs;
    let q1 = if q.len() == 0 || q.last() == x {
        spec_record(q, x)
    } else {
        q
    };
    if y != x {
        spec_record(q1, y)
    } else {
        q1
    }
}

/// Appends `reading`, dropping the oldest reading if the queue is full.
pub fn record(reads: &mut IoExtReads, reading: u16)
    ensures
        captured(*final(reads)) == spec_record(captured(*old(reads)), reading),
        captured(*final(reads)).len() <= 64,
        captured(*final(reads)).len() >= 1,
        captured(*final(reads)).last() == reading,
{
    let len = read_slice(reads).len();
    if len >= 64 {
        let _ = remove_read(reads, 0);
        assert(captured(*reads) =~= captured(*old(reads)).drop_first());
    }
    push_read(reads, reading);
}

/// Records what the expander reports at an interrupt: `int_cap` is its
/// interrupt-capture register, `inputs` its input register.
pub fn capture(reads: &mut IoExtReads, int_cap: u16, inputs: u16)
    ensures
        captured(*final(reads)) == spec_capture(captured(*old(reads)), int_cap, inputs),
        captured(*final(reads)).len() <= 64,
{
    let x: u16 = !int_cap;
    let y: u16 = !inputs;
    let s = read_slice(reads);
    let len = s.len();
    let repeats: bool = len == 0 || s[len - 1] == x;
    if repeats {
        record(reads, x);
    }
    if y != x {
        record(reads, y);
    }
}

/// The oldest reading leaves the queue, if there is one, and becomes the
/// current reading if it differs from it.
pub open spec fn spec_take(q: Seq<u16>, current: u16) -> (Seq<u16>, u16, bool) {
    if q.len() == 0 {
        (q, current, false)
    } else {
        (q.remove(0), q[0], q[0] != current)
    }
}

/// Takes the oldest reading out of the queue. Returns whether it differs
/// from `current`, which it then replaces.
pub fn take_reading(reads: &mut IoExtReads, current: &mut u16) -> (changed: bool)
    ensures
        (captured(*final(reads)), *final(current), changed) == spec_take(captured(*old(reads)), *old(current)),
{
    if read_slice(reads).len() == 0 {
        return false;
    }
    let x = remove_read(reads, 0);
    if x != *current {
        *current = x;
        true
    } else {
        false
    }
}

/// Whether readings wait in the queue.
pub fn has_readings(reads: &IoExtReads) -> (b: bool)
    ensures
        b == (captured(*reads).len() > 0),
{
    read_slice(reads).len() > 0
}

/// What the handlers of the clock and reset lines have seen since the main
/// loop last took it over.
#[derive(Clone, Copy, Debug, PartialEq, Eq, Structural)]
pub struct LineCapture {
    /// The reset line fired.
    pub reset: bool,
    /// The clock line fired, last when the cycle counter read this.
    pub clock: Option<u32>,
}

/// The instant at which the cycle counter read `snapshot`, where it reads
/// `counter` at `now` and has not gone around in between.
pub open spec fn spec_instant(now: Time, counter: u32, snapshot: u32) -> int {
    now.count - (counter - snapshot) % 0x1_0000_0000
}

/// The instant at which the cycle counter read `snapshot`.
pub fn instant(now: Time, counter: u32, snapshot: u32) -> (at: Time)
    requires
        now.in_range(),
    ensures
        at.count == spec_instant(now, counter, snapshot),
        now.count - 0xffff_ffff <= at.count <= now.count,
{
    let back: u32 = counter.wrapping_sub(snapshot);
    Time { count: now.count - back as i64 }
}

impl LineCapture {
    /// Nothing seen.
    pub fn new() -> (lines: LineCapture)
        ensures
            lines == (LineCapture { reset: false, clock: None }),
    {
        LineCapture { reset: false, clock: None }
    }

    /// Notes which of the two lines fired while the cycle counter read
    /// `snapshot`: the reset line first, then the clock line. A clock pulse
    /// that was noted before and not yet taken over gives way to the new
    /// one.
    pub fn note(&mut self, reset_fired: bool, clock_fired: bool, snapshot: u32)
        ensures
            final(self).reset == (old(self).reset || reset_fired),
            final(self).clock == (if clock_fired {
                Some(snapshot)
            } else {
                old(self).clock
            }),
    {
        if reset_fired {
            self.reset = true;
        }
        if clock_fired {
            self.clock = Some(snapshot);
        }
    }

    /// Whether a line fired.
    pub fn is_dirty(&self) -> (dirty: bool)
        ensures
            dirty == (self.reset || self.clock is Some),
    {
        self.reset || self.clock.is_some()
    }

    /// Takes over what was seen and forgets it.
    pub fn take(&mut self) -> (seen: LineCapture)
        ensures
            seen == *old(self),
            *final(self) == (LineCapture { reset: false, clock: None }),
    {
        let seen = *self;
        self.reset = false;
        self.clock = None;
        seen
    }
}

/// Whether anything was captured. Meant to be asked without holding off
/// the handlers: a wrong answer costs one pass and nothing else.
pub fn is_dirty(lines: &LineCapture, reads1: &IoExtReads, reads2: &IoExtReads) -> (dirty: bool)
    ensures
        dirty == (lines.reset || lines.clock is Some || captured(*reads1).len() > 0 || captured(*reads2).len()
            > 0),
{
    lines.is_dirty() || has_readings(reads1) || has_readings(reads2)
}

/// Takes over what was captured for one pass: what the lines have seen,
/// with the clock pulse's snapshot turned into its instant, and the oldest
/// reading of each expander. `counter` is what the cycle counter reads at
/// `now`. Returns whether a reading differs from the one known before. To
/// be called with the handlers held off.
pub fn drain(
    lines: &mut LineCapture,
    reads1: &mut IoExtReads,
    reads2: &mut IoExtReads,
    known: &mut Captured,
    now: Time,
    counter: u32,
) -> (io_ext_change: bool)
    requires
        now.in_range(),
        now.count >= 0,
    ensures
        final(known).wf(),
        final(known).reset == old(lines).reset,
        final(known).clock == (match old(lines).clock {
            Some(snapshot) => Some(Time { count: spec_instant(now, counter, snapshot) as i64 }),
            None => None,
        }),
        *final(lines) == (LineCapture { reset: false, clock: None }),
        (captured(*final(reads1)), final(known).ext1) == (
            spec_take(captured(*old(reads1)), old(known).ext1).0,
            spec_take(captured(*old(reads1)), old(known).ext1).1,
        ),
        (captured(*final(reads2)), final(known).ext2) == (
            spec_take(captured(*old(reads2)), old(known).ext2).0,
            spec_take(captured(*old(reads2)), old(known).ext2).1,
        ),
        io_ext_change == (spec_take(captured(*old(reads1)), old(known).ext1).2 || spec_take(
            captured(*old(reads2)),
            old(known).ext2,
        ).2),
{
    let seen = lines.take();
    known.reset = seen.reset;
    known.clock = match seen.clock {
        Some(snapshot) => Some(instant(now, counter, snapshot)),
        None => None,
    };
    let mut ext1 = known.ext1;
    let mut ext2 = known.ext2;
    let change1 = take_reading(reads1, &mut ext1);
    let change2 = take_reading(reads2, &mut ext2);
    known.ext1 = ext1;
    known.ext2 = ext2;
    change1 || change2
}

} // verus!
