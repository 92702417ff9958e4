//! The compare-and-swap sequence, once for every width.

use vstd::prelude::*;
use crate::access::{fenced, load, store, Step};
use crate::word::Word;

verus! {

/// What a cell holds after one attempt that found `cur` in it: `newval` if
/// `cur` is the expected `oldval`, and `cur` as before if it is not.
pub open spec fn cell_after<W>(cur: W, oldval: W, newval: W) -> W {
    if cur == oldval {
        newval
    } else {
        cur
    }
}

/// The steps of one attempt that finds `cur` in the cell, in order: a fenced
/// read, and then, only if `cur` is the expected `oldval`, a fenced write of
/// `newval`.
pub open spec fn attempt_steps<W>(cur: W, oldval: W, newval: W) -> Seq<Step<W>> {
    if cur == oldval {
        seq![
            Step::Barrier,
            Step::Load(cur),
            Step::Barrier,
            Step::Barrier,
            Step::Store(newval),
            Step::Barrier,
        ]
    } else {
        seq![Step::Barrier, Step::Load(cur), Step::Barrier]
    }
}

/// A region of cells after one attempt on the cell at `address`.
pub open spec fn memory_after<W>(memory: Seq<W>, address: int, oldval: W, newval: W) -> Seq<W>
    recommends
        0 <= address < memory.len(),
{
    memory.update(address, cell_after(memory[address], oldval, newval))
}

/// One attempt to replace `oldval` by `newval` in the cell, with its steps
/// appended to `log`.
///
/// Returns the word that the read found, whether or not the write followed.
/// There is no retry: a caller that needs the swap to happen compares the
/// result with `oldval` and calls again.
pub fn compare_and_swap_logged<W: Word>(
    cell: &mut W,
    oldval: W,
    newval: W,
    log: &mut Ghost<Seq<Step<W>>>,
) -> (cur: W)
    ensures
        cur == *old(cell),
        *final(cell) == cell_after(*old(cell), oldval, newval),
        final(log)@ == old(log)@ + attempt_steps(*old(cell), oldval, newval),
{
    fenced(log);
    let cur = load(cell, log);
    fenced(log);
    if cur.same(oldval) {
        fenced(log);
        store(cell, newval, log);
        fenced(log);
    }
    assert(log@ =~= old(log)@ + attempt_steps(cur, oldval, newval));
    cur
}

/// One attempt to replace `oldval` by `newval` in the cell.
///
/// Returns the word that the cell held before the call. If that word is
/// `oldval` the cell now holds `newval`; if not, the cell is as it was.
pub fn compare_and_swap<W: Word>(cell: &mut W, oldval: W, newval: W) -> (cur: W)
    ensures
        cur == *old(cell),
        *final(cell) == cell_after(*old(cell), oldval, newval),
        *old(cell) == oldval ==> *final(cell) == newval,
        *old(cell) != oldval ==> *final(cell) == *old(cell),
{
    let mut log: Ghost<Seq<Step<W>>> = Ghost(Seq::empty());
    compare_and_swap_logged(cell, oldval, newval, &mut log)
}

/// One attempt on the cell at `address` in a region of cells of one width.
///
/// Only that cell is read, and only that cell can change: every other cell of
/// the region holds afterwards what it held before.
pub fn compare_and_swap_at<W: Word>(
    memory: &mut [W],
    address: usize,
    oldval: W,
    newval: W,
) -> (cur: W)
    requires
        address < old(memory)@.len(),
    ensures
        cur == old(memory)@[address as int],
        final(memory)@ == memory_after(old(memory)@, address as int, oldval, newval),
        final(memory)@.len() == old(memory)@.len(),
        forall|other: int|
            0 <= other < old(memory)@.len() && other != address ==> final(memory)@[other] == old(
                memory,
            )@[other],
{
    compare_and_swap(&mut memory[address], oldval, newval)
}

} // verus!
