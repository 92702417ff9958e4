//! What holds of attempts that follow one another on the same cell.

use vstd::prelude::*;
use crate::cas::{cell_after, memory_after};

verus! {

/// What a cell that held `cell` holds after one attempt for each word of
/// `news`, in order, every one of them expecting `oldval`.
pub open spec fn cell_after_attempts<W>(cell: W, oldval: W, news: Seq<W>) -> W
    decreases news.len(),
{
    if news.len() == 0 {
        cell
    } else {
        cell_after(cell_after_attempts(cell, oldval, news.drop_last()), oldval, news.last())
    }
}

/// What attempt number `k`, counted from 0, of such a row of attempts
/// returns: what the attempts before it left in the cell.
pub open spec fn returned_by_attempt<W>(cell: W, oldval: W, news: Seq<W>, k: int) -> W
    recommends
        0 <= k < news.len(),
{
    cell_after_attempts(cell, oldval, news.take(k))
}

/// Failure changes nothing, however often it is repeated: while the cell
/// holds a word other than the expected `oldval`, every attempt that expects
/// `oldval` returns that same word and leaves it in the cell, whatever it
/// tries to write.
pub proof fn lemma_failed_attempts_change_nothing<W>(cell: W, oldval: W, news: Seq<W>)
    requires
        cell != oldval,
    ensures
        cell_after_attempts(cell, oldval, news) == cell,
        forall|k: int|
            0 <= k < news.len() ==> #[trigger] returned_by_attempt(cell, oldval, news, k) == cell,
    decreases news.len(),
{
    if news.len() > 0 {
        lemma_failed_attempts_change_nothing(cell, oldval, news.drop_last());
    }
    assert forall|k: int| 0 <= k < news.len() implies #[trigger] returned_by_attempt(
        cell,
        oldval,
        news,
        k,
    ) == cell by {
        lemma_failed_attempts_change_nothing(cell, oldval, news.take(k));
    }
}

/// There and back: on a cell that holds `a`, an attempt from `a` to `b`
/// finds `a` and leaves `b`, and an attempt from `b` to `a` that follows it
/// finds `b` and leaves `a` in the cell again.
pub proof fn lemma_round_trip<W>(a: W, b: W)
    ensures
        cell_after(a, a, b) == b,
        cell_after(cell_after(a, a, b), b, a) == a,
{
}

/// An attempt stays in its cell. What it writes there depends on no other
/// cell of the region: two regions that agree in the cell at `address` have
/// the same word in it afterwards. And it writes nowhere else: the region
/// keeps its length, and every cell but the one at `address` its word.
pub proof fn lemma_attempt_stays_in_its_cell<W>(
    memory: Seq<W>,
    elsewhere: Seq<W>,
    address: int,
    oldval: W,
    newval: W,
)
    requires
        0 <= address < memory.len(),
        0 <= address < elsewhere.len(),
        memory[address] == elsewhere[address],
    ensures
        memory_after(memory, address, oldval, newval)[address] == memory_after(
            elsewhere,
            address,
            oldval,
            newval,
        )[address],
        memory_after(memory, address, oldval, newval).len() == memory.len(),
        forall|other: int|
            0 <= other < memory.len() && other != address ==> memory_after(
                memory,
                address,
                oldval,
                newval,
            )[other] == memory[other],
{
}

} // verus!
