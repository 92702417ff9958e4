//! The values a cell can hold: unsigned integers of a fixed width.

use vstd::prelude::*;

verus! {

/// An unsigned integer of fixed width, as a memory cell holds it.
///
/// Two words are the same when all their bits are: no sign extension and no
/// conversion to another width takes part in the comparison.
pub trait Word: Copy + Sized {
    /// Whether `self` and `other` agree in every bit.
    fn same(self, other: Self) -> (r: bool)
        ensures
            r == (self == other),
    ;
}

impl Word for u8 {
    fn same(self, other: Self) -> (r: bool) {
        self == other
    }
}

impl Word for u16 {
    fn same(self, other: Self) -> (r: bool) {
        self == other
    }
}

impl Word for u32 {
    fn same(self, other: Self) -> (r: bool) {
        self == other
    }
}

impl Word for u64 {
    fn same(self, other: Self) -> (r: bool) {
        self == other
    }
}

} // verus!
