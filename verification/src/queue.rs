//! The two bounded queues of the instrument, kept in `arrayvec`'s
//! fixed-capacity vector.
//!
//! The vector itself is not verified here. What this file says of it is
//! taken on trust from its source: each wrapper below holds one call.

use vstd::prelude::*;
use arrayvec::ArrayVec;
use crate::state::Oper;

verus! {

/// `arrayvec::ArrayVec`, a vector of fixed capacity that stores its items
/// inline. Nothing of its inside is visible to the verifier.
#[verifier::external_type_specification]
#[verifier::external_body]
#[verifier::reject_recursive_types(T)]
pub struct ExArrayVec<T, const CAP: usize>(ArrayVec<T, CAP>);

/// Capacity of both queues.
pub const QUEUE_CAP: usize = 64;

/// Operations waiting to be applied to the state.
pub type OperQueue = ArrayVec<Oper, 64>;

/// Readings of an I/O expander waiting to be decoded.
pub type IoExtReads = ArrayVec<u16, 64>;

/// The operations that a queue holds, oldest first.
pub uninterp spec fn queued(q: ArrayVec<Oper, 64>) -> Seq<Oper>;

/// The readings that a capture queue holds, oldest first.
pub uninterp spec fn captured(q: ArrayVec<u16, 64>) -> Seq<u16>;

/// `ArrayVec::push` on a queue of operations: the operation is appended
/// behind those already there. The vector panics when it is full, so room
/// is required.
#[verifier::external_body]
pub(crate) fn push_oper(q: &mut ArrayVec<Oper, 64>, oper: Oper)
    requires
        queued(*old(q)).len() < 64,
    ensures
        queued(*final(q)) == queued(*old(q)).push(oper),
{
    q.push(oper)
}

/// `ArrayVec::as_slice` on a queue of operations: the slice holds the
/// queue's operations in their order, and they are at most as many as the
/// vector's capacity.
#[verifier::external_body]
pub(crate) fn oper_slice(q: &ArrayVec<Oper, 64>) -> (s: &[Oper])
    ensures
        s@ == queued(*q),
        s@.len() <= 64,
{
    q.as_slice()
}

/// `ArrayVec::clear` on a queue of operations: the queue is empty
/// afterwards.
#[verifier::external_body]
pub(crate) fn clear_opers(q: &mut ArrayVec<Oper, 64>)
    ensures
        queued(*final(q)) == Seq::<Oper>::empty(),
{
    q.clear()
}

/// `ArrayVec::push` on a capture queue: the reading is appended behind
/// those already there. The vector panics when it is full, so room is
/// required.
#[verifier::external_body]
pub(crate) fn push_read(q: &mut ArrayVec<u16, 64>, reading: u16)
    requires
        captured(*old(q)).len() < 64,
    ensures
        captured(*final(q)) == captured(*old(q)).push(reading),
{
    q.push(reading)
}

/// `ArrayVec::as_slice` on a capture queue: the slice holds the queue's
/// readings in their order, and they are at most as many as the vector's
/// capacity.
#[verifier::external_body]
pub(crate) fn read_slice(q: &ArrayVec<u16, 64>) -> (s: &[u16])
    ensures
        s@ == captured(*q),
        s@.len() <= 64,
{
    q.as_slice()
}

/// `ArrayVec::remove` on a capture queue: the reading at `index` is taken
/// out and returned, and those behind it move up. The vector panics when
/// `index` is out of bounds, so an index within the queue is required.
#[verifier::external_body]
pub(crate) fn remove_read(q: &mut ArrayVec<u16, 64>, index: usize) -> (reading: u16)
    requires
        index < captured(*old(q)).len(),
    ensures
        reading == captured(*old(q))[index as int],
        captured(*final(q)) == captured(*old(q)).remove(index as int),
{
    q.remove(index)
}

} // verus!
