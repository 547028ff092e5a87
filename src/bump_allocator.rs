//! An allocator that serves allocations by advancing a cursor through one
//! region of memory.

use crate::allocator::{AllocError, Allocator, LocalAllocator};
use crate::memory_address::{lemma_round_up, round_up, MemoryAddress};
use crate::memory_range::MemoryRange;
use crate::memory_source::{copied, MemorySource};
use crate::non_zero::NonZeroUsize;
use vstd::prelude::*;

verus! {

/// The addresses that make up the state of a bump allocator.
pub struct BumpState {
    /// First address of the region.
    pub start: nat,
    /// Address of the allocation that was made last.
    pub most_recent: nat,
    /// Address at which the next allocation begins: the cursor.
    pub next: nat,
    /// First address past the region.
    pub end: nat,
}

impl BumpState {
    /// The addresses are ordered as the allocator keeps them.
    pub open spec fn wf(self) -> bool {
        &&& 0 < self.start
        &&& self.start <= self.most_recent <= self.next <= self.end
        &&& self.end <= usize::MAX
    }

    /// An allocation of `size` bytes at a multiple of `alignment` fits
    /// between the cursor and the end of the region.
    pub open spec fn allocation_fits(self, size: nat, alignment: nat) -> bool {
        round_up(self.next, alignment) + size <= self.end
    }

    /// The state after an allocation of `size` bytes at a multiple of `alignment`.
    pub open spec fn after_allocate(self, size: nat, alignment: nat) -> BumpState {
        BumpState {
            most_recent: round_up(self.next, alignment),
            next: round_up(self.next, alignment) + size,
            ..self
        }
    }

    /// The state after `address` is given back: the cursor returns to it when
    /// it is the most recent allocation.
    pub open spec fn after_deallocate(self, address: nat) -> BumpState {
        if address == self.most_recent {
            BumpState { next: self.most_recent, ..self }
        } else {
            self
        }
    }

    /// The state after the allocation at `address` shrinks to `new_size`
    /// bytes: the cursor moves to the new end of the most recent allocation;
    /// any other allocation leaves the difference unused.
    pub open spec fn after_shrink(self, new_size: nat, address: nat) -> BumpState {
        if address == self.most_recent && address + new_size <= self.end {
            BumpState { next: address + new_size, ..self }
        } else {
            self
        }
    }

    /// The most recent allocation, at `address`, can grow to `new_size` bytes
    /// where it stands.
    pub open spec fn growth_fits(self, new_size: nat, address: nat) -> bool {
        address + new_size <= self.end
    }

    /// The state after the most recent allocation grows in place to `new_size` bytes.
    pub open spec fn after_grow_in_place(self, new_size: nat, address: nat) -> BumpState {
        BumpState { next: address + new_size, ..self }
    }
}

/// The state after each of `requests`, a size and an alignment, is
/// allocated in turn, with the address of each allocation; `None` where one
/// of them does not fit.
pub open spec fn allocate_all(s: BumpState, requests: Seq<(nat, nat)>) -> Option<(BumpState, Seq<nat>)>
    decreases requests.len(),
{
    if requests.len() == 0 {
        Some((s, Seq::empty()))
    } else {
        match allocate_all(s, requests.drop_last()) {
            Some((t, addresses)) => {
                let (size, alignment) = requests.last();
                if t.allocation_fits(size, alignment) {
                    Some(
                        (
                            t.after_allocate(size, alignment),
                            addresses.push(round_up(t.next, alignment)),
                        ),
                    )
                } else {
                    None
                }
            },
            None => None,
        }
    }
}

/// Allocations made one after another, all of which fit, lie at multiples of
/// their alignments, in the order they were made, each past the end of the
/// one before, and all between the cursor before the first and the cursor
/// after the last.
pub proof fn lemma_allocations_ordered(s: BumpState, requests: Seq<(nat, nat)>)
    requires
        s.wf(),
        forall|i: int| 0 <= i < requests.len() ==> #[trigger] requests[i].0 > 0 && requests[i].1 > 0,
    ensures
        allocate_all(s, requests) matches Some((t, addresses)) ==> {
            &&& t.wf()
            &&& addresses.len() == requests.len()
            &&& forall|i: int|
                0 <= i < requests.len() ==> #[trigger] addresses[i] % requests[i].1 == 0
            &&& forall|i: int|
                0 <= i < requests.len() ==> s.next <= #[trigger] addresses[i] && addresses[i]
                    + requests[i].0 <= t.next
            &&& forall|i: int, j: int|
                0 <= i < j < requests.len() ==> #[trigger] addresses[i] + requests[i].0
                    <= #[trigger] addresses[j] && addresses[i] < addresses[j]
        },
    decreases requests.len(),
{
    if requests.len() > 0 {
        let front = requests.drop_last();
        lemma_allocations_ordered(s, front);
        if let Some((t, addresses)) = allocate_all(s, front) {
            let (size, alignment) = requests.last();
            assert(requests[requests.len() - 1].0 > 0);
            lemma_round_up(t.next, alignment);
            if t.allocation_fits(size, alignment) {
                let all = addresses.push(round_up(t.next, alignment));
                assert forall|i: int| 0 <= i < front.len() implies all[i] == addresses[i]
                    && requests[i] == front[i] by {}
            }
        }
    }
}

/// Shrinking the most recent allocation, then growing it back to the size
/// it had, restores the state from before the shrink.
pub proof fn lemma_shrink_then_grow_restores(
    s: BumpState,
    address: nat,
    old_size: nat,
    new_size: nat,
)
    requires
        s.wf(),
        address == s.most_recent,
        s.next == address + old_size,
    ensures
        s.after_shrink(new_size, address).most_recent == address,
        s.after_shrink(new_size, address).growth_fits(old_size, address),
        s.after_shrink(new_size, address).after_grow_in_place(old_size, address) == s,
{
}

/// Freeing the most recent allocation moves the cursor back to it, and an
/// allocation that fits there at the same alignment is served at that very
/// address.
pub proof fn lemma_deallocate_then_reuse(s: BumpState, address: nat, size: nat, alignment: nat)
    requires
        s.wf(),
        address == s.most_recent,
        alignment > 0,
        address % alignment == 0,
        address + size <= s.end,
    ensures
        s.after_deallocate(address).next == address,
        s.after_deallocate(address).allocation_fits(size, alignment),
        round_up(s.after_deallocate(address).next, alignment) == address,
{
    lemma_round_up(address, alignment);
}

/// A bump allocator over one region obtained from a memory source.
///
/// Only the most recent allocation can be freed, shrunk or grown in place;
/// the space of any other stays in use until the allocator is dropped, which
/// hands the whole region back to the memory source.
///
/// It is meant for one owner on one thread at a time. Its owner hands the
/// region back with `release`; a value dropped without it keeps the region.
pub struct BumpAllocator<MS: MemorySource> {
    most_recent_allocation_pointer: MemoryAddress,
    next_allocation_at_pointer: MemoryAddress,
    ends_at_pointer: MemoryAddress,
    memory_source: MS,
    memory_source_size: NonZeroUsize,
}

impl<MS: MemorySource> View for BumpAllocator<MS> {
    type V = BumpState;

    closed spec fn view(&self) -> BumpState {
        BumpState {
            start: if self.ends_at_pointer@ > self.memory_source_size@ {
                (self.ends_at_pointer@ - self.memory_source_size@) as nat
            } else {
                0
            },
            most_recent: self.most_recent_allocation_pointer@ as nat,
            next: self.next_allocation_at_pointer@ as nat,
            end: self.ends_at_pointer@ as nat,
        }
    }
}

impl<MS: MemorySource> BumpAllocator<MS> {
    /// The memory source that the region came from.
    pub closed spec fn source(&self) -> MS {
        self.memory_source
    }

    /// The number of bytes that were obtained from the memory source.
    pub closed spec fn size(&self) -> nat {
        self.memory_source_size@ as nat
    }

    /// An allocator over a block of `memory_source_size` bytes obtained from
    /// `memory_source`.
    ///
    /// Fails when the memory source cannot supply the block, or when the
    /// block would reach past the addressable range, in which case it is
    /// handed back at once.
    pub fn new(memory_source: MS, memory_source_size: NonZeroUsize) -> (r: Result<Self, AllocError>)
        ensures
            r matches Ok(b) ==> {
                &&& b@.most_recent == b@.start
                &&& b@.next == b@.start
                &&& b@.end == b@.start + memory_source_size@
                &&& b.size() == memory_source_size@
                &&& b.source() == memory_source
                &&& b.wf()
            },
    {
        let allocations_start_from = memory_source.obtain(memory_source_size)?;
        Self::from_obtained(memory_source, memory_source_size, allocations_start_from)
    }

    /// An allocator over the block of `memory_source_size` bytes at
    /// `allocations_start_from` that `memory_source` has just supplied.
    ///
    /// Where the block would reach past the addressable range, it is handed
    /// back to the memory source and the call fails.
    pub fn from_obtained(
        memory_source: MS,
        memory_source_size: NonZeroUsize,
        allocations_start_from: MemoryAddress,
    ) -> (r: Result<Self, AllocError>)
        ensures
            r is Ok <==> allocations_start_from@ + memory_source_size@ <= usize::MAX,
            r matches Ok(b) ==> {
                &&& b@ == (BumpState {
                    start: allocations_start_from@ as nat,
                    most_recent: allocations_start_from@ as nat,
                    next: allocations_start_from@ as nat,
                    end: (allocations_start_from@ + memory_source_size@) as nat,
                })
                &&& b.size() == memory_source_size@
                &&& b.source() == memory_source
                &&& b.wf()
            },
    {
        proof {
            use_type_invariant(allocations_start_from);
        }
        match allocations_start_from.checked_add(memory_source_size.get()) {
            Some(ends_at_pointer) => Ok(BumpAllocator {
                most_recent_allocation_pointer: allocations_start_from,
                next_allocation_at_pointer: allocations_start_from,
                ends_at_pointer,
                memory_source,
                memory_source_size,
            }),
            None => {
                let mut memory_source = memory_source;
                memory_source.release(memory_source_size, allocations_start_from);
                Err(AllocError)
            },
        }
    }

    /// Hands the whole region back to the memory source, whatever was
    /// allocated from it, and returns the memory source.
    pub fn release(self) -> (r: MS)
        requires
            self.wf(),
        ensures
            r.released() == self.source().released().push(
                (self.size() as usize, self@.start as usize),
            ),
    {
        let start = self.allocations_start_from();
        let size = self.memory_source_size;
        let mut memory_source = self.memory_source;
        memory_source.release(size, start);
        memory_source
    }

    /// The address `non_zero_size` bytes past `allocation_from`, where that
    /// does not pass the end of the region.
    fn allocation_ends_at_pointer(
        &self,
        non_zero_size: NonZeroUsize,
        allocation_from: MemoryAddress,
    ) -> (r: Result<MemoryAddress, AllocError>)
        requires
            self.wf(),
        ensures
            r is Ok <==> allocation_from@ + non_zero_size@ <= self@.end,
            r matches Ok(a) ==> a@ == allocation_from@ + non_zero_size@,
    {
        match allocation_from.checked_add(non_zero_size.get()) {
            Some(ends_at) => {
                if ends_at.value() > self.ends_at_pointer.value() {
                    Err(AllocError)
                } else {
                    Ok(ends_at)
                }
            },
            None => Err(AllocError),
        }
    }

    /// The first address of the region.
    pub fn allocations_start_from(&self) -> (r: MemoryAddress)
        requires
            self.wf(),
        ensures
            r@ == self@.start,
    {
        self.ends_at_pointer.subtract_non_zero(self.memory_source_size)
    }
}

impl<MS: MemorySource> Allocator for BumpAllocator<MS> {
    open spec fn wf(&self) -> bool {
        self@.wf()
    }

    /// Serves the allocation at the cursor rounded up to the alignment, and
    /// moves the cursor past it; fails, changing nothing, where it does not
    /// fit in the region.
    fn allocate(
        &mut self,
        non_zero_size: NonZeroUsize,
        non_zero_power_of_two_alignment: NonZeroUsize,
    ) -> (r: Result<MemoryAddress, AllocError>)
        ensures
            r is Ok <==> old(self)@.allocation_fits(
                non_zero_size@ as nat,
                non_zero_power_of_two_alignment@ as nat,
            ),
            r matches Ok(a) ==> {
                &&& a@ == round_up(old(self)@.next, non_zero_power_of_two_alignment@ as nat)
                &&& final(self)@ == old(self)@.after_allocate(
                    non_zero_size@ as nat,
                    non_zero_power_of_two_alignment@ as nat,
                )
            },
            r is Err ==> final(self)@ == old(self)@,
            final(self).source() == old(self).source(),
            final(self).size() == old(self).size(),
    {
        proof {
            use_type_invariant(non_zero_power_of_two_alignment);
            lemma_round_up(self@.next, non_zero_power_of_two_alignment@ as nat);
        }
        let rounded = match self.next_allocation_at_pointer.round_up_to_power_of_two(
            non_zero_power_of_two_alignment,
        ) {
            Some(a) => a,
            None => return Err(AllocError),
        };
        let ends_at = self.allocation_ends_at_pointer(non_zero_size, rounded)?;
        self.most_recent_allocation_pointer = rounded;
        self.next_allocation_at_pointer = ends_at;
        Ok(rounded)
    }

    /// Moves the cursor back to `current_memory` where that is the most
    /// recent allocation; otherwise does nothing.
    fn deallocate(
        &mut self,
        non_zero_size: NonZeroUsize,
        non_zero_power_of_two_alignment: NonZeroUsize,
        current_memory: MemoryAddress,
    )
        ensures
            final(self)@ == old(self)@.after_deallocate(current_memory@ as nat),
            final(self).source() == old(self).source(),
            final(self).size() == old(self).size(),
    {
        if current_memory.value() == self.most_recent_allocation_pointer.value() {
            self.next_allocation_at_pointer = self.most_recent_allocation_pointer;
        }
    }

    /// Moves the cursor to the new end where `current_memory` is the most
    /// recent allocation; otherwise leaves the difference unused.
    fn shrinking_reallocate(
        &mut self,
        non_zero_new_size: NonZeroUsize,
        non_zero_power_of_two_alignment: NonZeroUsize,
        non_zero_current_size: NonZeroUsize,
        current_memory: MemoryAddress,
    ) -> (r: Result<MemoryAddress, AllocError>)
        ensures
            final(self)@ == old(self)@.after_shrink(
                non_zero_new_size@ as nat,
                current_memory@ as nat,
            ),
            final(self).source() == old(self).source(),
            final(self).size() == old(self).size(),
    {
        if current_memory.value() == self.most_recent_allocation_pointer.value() {
            if let Ok(ends_at) = self.allocation_ends_at_pointer(non_zero_new_size, current_memory) {
                self.next_allocation_at_pointer = ends_at;
            }
        }
        Ok(current_memory)
    }

    /// Grows the most recent allocation where it stands; moves any other to
    /// a new allocation and copies its bytes there. Fails, changing nothing,
    /// where the region has no room.
    fn growing_reallocate(
        &mut self,
        non_zero_new_size: NonZeroUsize,
        non_zero_power_of_two_alignment: NonZeroUsize,
        non_zero_current_size: NonZeroUsize,
        current_memory: MemoryAddress,
    ) -> (r: Result<MemoryAddress, AllocError>)
        ensures
            current_memory@ == old(self)@.most_recent ==> {
                &&& r is Ok <==> old(self)@.growth_fits(
                    non_zero_new_size@ as nat,
                    current_memory@ as nat,
                )
                &&& r is Ok ==> r == Ok::<MemoryAddress, AllocError>(current_memory)
                    && final(self)@ == old(self)@.after_grow_in_place(
                    non_zero_new_size@ as nat,
                    current_memory@ as nat,
                )
            },
            current_memory@ == old(self)@.most_recent || r is Err ==> final(self).source()
                == old(self).source(),
            current_memory@ != old(self)@.most_recent ==> {
                &&& r is Ok <==> old(self)@.allocation_fits(
                    non_zero_new_size@ as nat,
                    non_zero_power_of_two_alignment@ as nat,
                )
                &&& r matches Ok(a) ==> {
                    &&& a@ == round_up(old(self)@.next, non_zero_power_of_two_alignment@ as nat)
                    &&& final(self)@ == old(self)@.after_allocate(
                        non_zero_new_size@ as nat,
                        non_zero_power_of_two_alignment@ as nat,
                    )
                    &&& copied(
                        old(self).source(),
                        final(self).source(),
                        current_memory@ as nat,
                        a@ as nat,
                        non_zero_current_size@ as nat,
                    )
                }
            },
            r is Err ==> final(self)@ == old(self)@,
            final(self).size() == old(self).size(),
    {
        if current_memory.value() == self.most_recent_allocation_pointer.value() {
            let ends_at = self.allocation_ends_at_pointer(non_zero_new_size, current_memory)?;
            self.next_allocation_at_pointer = ends_at;
            Ok(current_memory)
        } else {
            let moved_to = self.allocate(non_zero_new_size, non_zero_power_of_two_alignment)?;
            self.memory_source.copy_bytes(current_memory, moved_to, non_zero_current_size.get());
            Ok(moved_to)
        }
    }
}

impl<MS: MemorySource> LocalAllocator for BumpAllocator<MS> {
    /// From the first address of the region to the first address past it.
    fn memory_range(&self) -> (r: MemoryRange)
        ensures
            r@ == (self@.start as usize, self@.end as usize),
    {
        MemoryRange::new(self.allocations_start_from(), self.ends_at_pointer)
    }
}

} // verus!
