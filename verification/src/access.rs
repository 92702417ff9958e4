//! The three things a compare-and-swap does to memory, and the log of them.
//!
//! A fence has no effect that a sequential contract could observe, so the
//! order of fences and accesses is kept in a ghost log: each operation below
//! does one thing and appends the one step that stands for it. Nothing else in
//! the crate fences or reads or writes a cell.

use vstd::prelude::*;
use crate::word::Word;

verus! {

/// One step of a compare-and-swap, as the log records it.
pub enum Step<W> {
    /// A full memory barrier.
    Barrier,
    /// A read of the cell, with the word that was found there.
    Load(W),
    /// A write to the cell, with the word that was put there.
    Store(W),
}

/// Calls `core::sync::atomic::fence` with `Ordering::SeqCst`, the strongest
/// ordering there is. Nothing is claimed of the call: it returns no value, and
/// what it does to the order of memory accesses is outside what a contract
/// here can say. The one ordering on which `fence` panics, `Relaxed`, is not
/// the one passed.
#[verifier::external_body]
fn full_barrier() {
    core::sync::atomic::fence(core::sync::atomic::Ordering::SeqCst);
}

/// Emits a full memory barrier.
pub(crate) fn fenced<W: Word>(log: &mut Ghost<Seq<Step<W>>>)
    ensures
        final(log)@ == old(log)@.push(Step::Barrier),
{
    full_barrier();
    *log = Ghost(log@.push(Step::Barrier));
}

/// Reads the cell.
pub(crate) fn load<W: Word>(cell: &W, log: &mut Ghost<Seq<Step<W>>>) -> (cur: W)
    ensures
        cur == *cell,
        final(log)@ == old(log)@.push(Step::Load(*cell)),
{
    let cur = *cell;
    *log = Ghost(log@.push(Step::Load(cur)));
    cur
}

/// Writes `value` into the cell.
pub(crate) fn store<W: Word>(cell: &mut W, value: W, log: &mut Ghost<Seq<Step<W>>>)
    ensures
        *final(cell) == value,
        final(log)@ == old(log)@.push(Step::Store(value)),
{
    *cell = value;
    *log = Ghost(log@.push(Step::Store(value)));
}

} // verus!
