//! Compare-and-swap on a caller-owned memory cell, for targets without a
//! native instruction for it: a fenced read, a comparison, and a fenced write
//! when the comparison holds.
//!
//! The sequence orders the accesses of the calling thread. It takes no lock
//! and gives no exclusive access: two units that run the sequence on one cell
//! at the same time may both see the expected value and both write. It is
//! meant for a single core, or for cooperative scheduling, and every contract
//! here describes one call that runs undisturbed.

pub mod access;
pub mod cas;
pub mod entry;
pub mod laws;
pub mod word;

pub use crate::access::Step;
pub use crate::cas::{compare_and_swap, compare_and_swap_at, compare_and_swap_logged};
pub use crate::entry::{
    __sync_val_compare_and_swap_1, __sync_val_compare_and_swap_2, __sync_val_compare_and_swap_4,
    __sync_val_compare_and_swap_8,
};
pub use crate::word::Word;
