//! The four entry points, one for each width that compilers ask for.
//!
//! Code compiled against the usual builtins calls a symbol whose name ends in
//! the width of its operands in bytes. Each function here is the routine of
//! `cas` at that one width: the width is fixed when the function is compiled,
//! and nothing is chosen while it runs.

use vstd::prelude::*;
use crate::cas::{cell_after, compare_and_swap};

verus! {

/// Compare-and-swap on a cell of 8 bits.
#[inline]
pub fn __sync_val_compare_and_swap_1(cell: &mut u8, oldval: u8, newval: u8) -> (cur: u8)
    ensures
        cur == *old(cell),
        *final(cell) == cell_after(*old(cell), oldval, newval),
        *old(cell) == oldval ==> *final(cell) == newval,
        *old(cell) != oldval ==> *final(cell) == *old(cell),
{
    compare_and_swap(cell, oldval, newval)
}

/// Compare-and-swap on a cell of 16 bits.
#[inline]
pub fn __sync_val_compare_and_swap_2(cell: &mut u16, oldval: u16, newval: u16) -> (cur: u16)
    ensures
        cur == *old(cell),
        *final(cell) == cell_after(*old(cell), oldval, newval),
        *old(cell) == oldval ==> *final(cell) == newval,
        *old(cell) != oldval ==> *final(cell) == *old(cell),
{
    compare_and_swap(cell, oldval, newval)
}

/// Compare-and-swap on a cell of 32 bits.
#[inline]
pub fn __sync_val_compare_and_swap_4(cell: &mut u32, oldval: u32, newval: u32) -> (cur: u32)
    ensures
        cur == *old(cell),
        *final(cell) == cell_after(*old(cell), oldval, newval),
        *old(cell) == oldval ==> *final(cell) == newval,
        *old(cell) != oldval ==> *final(cell) == *old(cell),
{
    compare_and_swap(cell, oldval, newval)
}

/// Compare-and-swap on a cell of 64 bits.
#[inline]
pub fn __sync_val_compare_and_swap_8(cell: &mut u64, oldval: u64, newval: u64) -> (cur: u64)
    ensures
        cur == *old(cell),
        *final(cell) == cell_after(*old(cell), oldval, newval),
        *old(cell) == oldval ==> *final(cell) == newval,
        *old(cell) != oldval ==> *final(cell) == *old(cell),
{
    compare_and_swap(cell, oldval, newval)
}

} // verus!
