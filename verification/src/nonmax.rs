//! Niched non-max integers: unsigned integers that give up the values whose
//! most significant byte is `0xFF`, so that an optional wrapper can use one of
//! those bit patterns for absence.

use std::mem::{align_of, size_of};
use vstd::prelude::*;

pub mod byte;
pub mod double;
pub mod half;
pub mod pointer;
pub mod quad;
pub mod word;

pub use byte::NonMaxU8;
pub use double::NonMaxU64;
pub use half::NonMaxU16;
pub use pointer::NonMaxUsize;
pub use quad::NonMaxU128;
pub use word::NonMaxU32;

verus! {

/// A native integer was above the maximum of the niched type asked for.
#[derive(Clone, Copy, Debug, PartialEq, Eq, Structural)]
pub struct RangeError;

/// Whether `A` takes the same room in memory as `B`, at the same alignment.
pub open spec fn same_layout<A, B>() -> bool {
    vstd::layout::size_of::<A>() == vstd::layout::size_of::<B>() && vstd::layout::align_of::<A>()
        == vstd::layout::align_of::<B>()
}

/// Whether, as the program was built, each niched type has the size and
/// the alignment of its native integer.
pub fn has_native_layout() -> (r: bool)
    ensures
        r == (same_layout::<NonMaxU8, u8>() && same_layout::<NonMaxU16, u16>() && same_layout::<
            NonMaxU32,
            u32,
        >() && same_layout::<NonMaxU64, u64>() && same_layout::<NonMaxU128, u128>()
            && same_layout::<NonMaxUsize, usize>()),
{
    size_of::<NonMaxU8>() == size_of::<u8>() && align_of::<NonMaxU8>() == align_of::<u8>()
        && size_of::<NonMaxU16>() == size_of::<u16>() && align_of::<NonMaxU16>() == align_of::<
        u16,
    >() && size_of::<NonMaxU32>() == size_of::<u32>() && align_of::<NonMaxU32>() == align_of::<
        u32,
    >() && size_of::<NonMaxU64>() == size_of::<u64>() && align_of::<NonMaxU64>() == align_of::<
        u64,
    >() && size_of::<NonMaxU128>() == size_of::<u128>() && align_of::<NonMaxU128>()
        == align_of::<u128>() && size_of::<NonMaxUsize>() == size_of::<usize>() && align_of::<
        NonMaxUsize,
    >() == align_of::<usize>()
}

} // verus!
