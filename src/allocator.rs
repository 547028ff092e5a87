//! What any allocator offers its callers, whatever its strategy.

use crate::memory_address::MemoryAddress;
use crate::memory_range::MemoryRange;
use crate::non_zero::NonZeroUsize;
use vstd::arithmetic::power2::is_pow2;
use vstd::prelude::*;

verus! {

/// The largest alignment that an allocator is asked for.
pub const MAXIMUM_POWER_OF_TWO_ALIGNMENT: usize = 4096;

/// The memory could not be allocated: the region is exhausted, or the
/// address arithmetic would leave the addressable range.
#[derive(Clone, Copy, Debug, PartialEq, Eq, Hash)]
pub struct AllocError;

/// An alignment that callers may ask for: a power of two, at most
/// `MAXIMUM_POWER_OF_TWO_ALIGNMENT`.
pub open spec fn valid_alignment(alignment: usize) -> bool {
    is_pow2(alignment as int) && alignment <= MAXIMUM_POWER_OF_TWO_ALIGNMENT
}

/// Allocation, release and resizing of memory.
///
/// Every size is non-zero and every alignment is a power of two no larger
/// than `MAXIMUM_POWER_OF_TWO_ALIGNMENT`.
pub trait Allocator {
    /// The allocator's state is consistent.
    spec fn wf(&self) -> bool;

    /// Memory of at least `non_zero_size` bytes at a multiple of the alignment.
    fn allocate(
        &mut self,
        non_zero_size: NonZeroUsize,
        non_zero_power_of_two_alignment: NonZeroUsize,
    ) -> (r: Result<MemoryAddress, AllocError>)
        requires
            old(self).wf(),
            valid_alignment(non_zero_power_of_two_alignment@),
        ensures
            final(self).wf(),
            r matches Ok(a) ==> a@ % non_zero_power_of_two_alignment@ == 0,
    ;

    /// `current_memory` is no longer needed by the caller.
    fn deallocate(
        &mut self,
        non_zero_size: NonZeroUsize,
        non_zero_power_of_two_alignment: NonZeroUsize,
        current_memory: MemoryAddress,
    )
        requires
            old(self).wf(),
            valid_alignment(non_zero_power_of_two_alignment@),
        ensures
            final(self).wf(),
    ;

    /// Shrinks the allocation at `current_memory`, which spans
    /// `non_zero_current_size` bytes, to `non_zero_new_size` bytes. The data
    /// never moves and the call never fails.
    fn shrinking_reallocate(
        &mut self,
        non_zero_new_size: NonZeroUsize,
        non_zero_power_of_two_alignment: NonZeroUsize,
        non_zero_current_size: NonZeroUsize,
        current_memory: MemoryAddress,
    ) -> (r: Result<MemoryAddress, AllocError>)
        requires
            old(self).wf(),
            valid_alignment(non_zero_power_of_two_alignment@),
            non_zero_new_size@ <= non_zero_current_size@,
        ensures
            final(self).wf(),
            r == Ok::<MemoryAddress, AllocError>(current_memory),
    ;

    /// Grows the allocation at `current_memory`, which spans
    /// `non_zero_current_size` bytes, to `non_zero_new_size` bytes. Where the
    /// allocation moves, its first `non_zero_current_size` bytes move with it.
    fn growing_reallocate(
        &mut self,
        non_zero_new_size: NonZeroUsize,
        non_zero_power_of_two_alignment: NonZeroUsize,
        non_zero_current_size: NonZeroUsize,
        current_memory: MemoryAddress,
    ) -> (r: Result<MemoryAddress, AllocError>)
        requires
            old(self).wf(),
            valid_alignment(non_zero_power_of_two_alignment@),
        ensures
            final(self).wf(),
            r matches Ok(a) ==> a == current_memory || a@ % non_zero_power_of_two_alignment@ == 0,
    ;
}

/// An allocator that serves every allocation from one range of memory that it owns.
pub trait LocalAllocator: Allocator {
    /// The range of memory that this allocator owns.
    fn memory_range(&self) -> (r: MemoryRange)
        requires
            self.wf(),
    ;
}

} // verus!
