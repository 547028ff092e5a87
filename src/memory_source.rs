//! The provider of the raw memory that an allocator hands out.

use crate::allocator::AllocError;
use crate::memory_address::MemoryAddress;
use crate::non_zero::NonZeroUsize;
use vstd::prelude::*;

verus! {

/// `after` holds the `length` bytes that `before` held at `from` again at
/// `to`, every other byte as `before` held it, and the same blocks handed back.
pub open spec fn copied<MS: MemorySource>(
    before: MS,
    after: MS,
    from: nat,
    to: nat,
    length: nat,
) -> bool {
    &&& after.released() == before.released()
    &&& forall|a: nat|
        #[trigger] after.byte(a) == if to <= a < to + length {
            before.byte((a - to + from) as nat)
        } else {
            before.byte(a)
        }
}

/// A supplier of contiguous blocks of memory, which also moves bytes
/// between the places inside them.
pub trait MemorySource: Sized {
    /// The byte held at `address`.
    ///
    /// A source verified with Verus defines this together with `released`.
    /// The default only lets a source written in plain Rust leave it out;
    /// Verus does not assume it of a source whose type it does not know.
    open spec fn byte(&self, address: nat) -> u8 {
        0
    }

    /// The blocks handed back so far, each as its size and first address.
    ///
    /// As with `byte`, the default is only there for sources written in plain Rust.
    open spec fn released(&self) -> Seq<(usize, usize)> {
        Seq::empty()
    }

    /// A block of exactly `non_zero_size` bytes, given by its first address.
    fn obtain(&self, non_zero_size: NonZeroUsize) -> (r: Result<MemoryAddress, AllocError>);

    /// Takes back the block that `obtain` gave for `non_zero_size` at `current_memory`.
    fn release(&mut self, non_zero_size: NonZeroUsize, current_memory: MemoryAddress)
        ensures
            final(self).released() == old(self).released().push((non_zero_size@, current_memory@)),
    ;

    /// Copies the `length` bytes at `from` to `to`; the two spans may overlap.
    fn copy_bytes(&mut self, from: MemoryAddress, to: MemoryAddress, length: usize)
        ensures
            final(self).released() == old(self).released(),
            forall|a: nat|
                #[trigger] final(self).byte(a) == if to@ <= a < to@ + length {
                    old(self).byte((a - to@ + from@) as nat)
                } else {
                    old(self).byte(a)
                },
    ;
}

} // verus!
