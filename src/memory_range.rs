//! A contiguous span of addresses.

use crate::memory_address::MemoryAddress;
use vstd::prelude::*;

verus! {

/// The addresses from `start` up to, but not including, `end`.
#[derive(Clone, Copy, Debug, PartialEq, Eq, Hash)]
pub struct MemoryRange {
    start: MemoryAddress,
    end: MemoryAddress,
}

impl View for MemoryRange {
    type V = (usize, usize);

    closed spec fn view(&self) -> (usize, usize) {
        (self.start@, self.end@)
    }
}

impl MemoryRange {
    #[verifier::type_invariant]
    pub open spec fn inv(self) -> bool {
        self@.0 <= self@.1
    }

    /// The range from `start` to `end`.
    pub fn new(start: MemoryAddress, end: MemoryAddress) -> (r: Self)
        requires
            start@ <= end@,
        ensures
            r@ == (start@, end@),
    {
        MemoryRange { start, end }
    }

    /// The first address of the range.
    pub fn start(&self) -> (r: MemoryAddress)
        ensures
            r@ == self@.0,
    {
        self.start
    }

    /// The first address past the range.
    pub fn end(&self) -> (r: MemoryAddress)
        ensures
            r@ == self@.1,
    {
        self.end
    }
}

} // verus!
