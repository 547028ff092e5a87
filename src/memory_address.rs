//! Addresses of raw bytes, with arithmetic that never wraps silently.

use crate::non_zero::NonZeroUsize;
use vstd::arithmetic::div_mod::{lemma_fundamental_div_mod, lemma_mod_multiples_basic};
use vstd::prelude::*;

verus! {

/// The smallest multiple of `alignment` that is at least `value`.
pub open spec fn round_up(value: nat, alignment: nat) -> nat
    recommends
        alignment > 0,
{
    if value % alignment == 0 {
        value
    } else {
        value + (alignment - value % alignment) as nat
    }
}

/// Rounding up gives a multiple of the alignment, less than one alignment past the value.
pub proof fn lemma_round_up(value: nat, alignment: nat)
    requires
        alignment > 0,
    ensures
        round_up(value, alignment) % alignment == 0,
        value <= round_up(value, alignment) < value + alignment,
        value % alignment == 0 ==> round_up(value, alignment) == value,
{
    if value % alignment != 0 {
        let q = (value / alignment) as int;
        lemma_fundamental_div_mod(value as int, alignment as int);
        assert(round_up(value, alignment) == (q + 1) * alignment) by (nonlinear_arith)
            requires
                value == alignment * q + value % alignment,
                round_up(value, alignment) == value + (alignment - value % alignment),
        ;
        lemma_mod_multiples_basic(q + 1, alignment as int);
    }
}

/// The address of a byte; never the null address.
#[derive(Clone, Copy, Debug, PartialEq, Eq, PartialOrd, Ord, Hash)]
pub struct MemoryAddress {
    value: usize,
}

impl View for MemoryAddress {
    type V = usize;

    closed spec fn view(&self) -> usize {
        self.value
    }
}

/// Two addresses are the same exactly when they stand for the same integer.
pub proof fn lemma_view_injective(a: MemoryAddress, b: MemoryAddress)
    ensures
        a@ == b@ <==> a == b,
{
}

impl MemoryAddress {
    #[verifier::type_invariant]
    pub open spec fn inv(self) -> bool {
        self@ != 0
    }

    /// The address `value`, or `None` for the null address.
    pub fn new(value: usize) -> (r: Option<Self>)
        ensures
            value == 0 <==> r is None,
            r matches Some(a) ==> a@ == value,
    {
        if value == 0 {
            None
        } else {
            Some(MemoryAddress { value })
        }
    }

    /// The address as an integer.
    pub fn value(self) -> (r: usize)
        ensures
            r == self@,
            r != 0,
    {
        proof {
            use_type_invariant(self);
        }
        self.value
    }

    /// The address `size` bytes further on, or `None` when that is past the
    /// addressable range.
    pub fn checked_add(self, size: usize) -> (r: Option<Self>)
        ensures
            self@ + size > usize::MAX <==> r is None,
            r matches Some(a) ==> a@ == self@ + size,
    {
        let start = self.value();
        match start.checked_add(size) {
            Some(end) => Some(MemoryAddress { value: end }),
            None => None,
        }
    }

    /// The address `size` bytes further on.
    pub fn add(self, size: usize) -> (r: Self)
        requires
            self@ + size <= usize::MAX,
        ensures
            r@ == self@ + size,
    {
        MemoryAddress { value: self.value() + size }
    }

    /// The address `size` bytes further on.
    pub fn add_non_zero(self, size: NonZeroUsize) -> (r: Self)
        requires
            self@ + size@ <= usize::MAX,
        ensures
            r@ == self@ + size@,
    {
        self.add(size.get())
    }

    /// The address `size` bytes before; it must not be the null address.
    pub fn subtract_non_zero(self, size: NonZeroUsize) -> (r: Self)
        requires
            self@ > size@,
        ensures
            r@ == self@ - size@,
    {
        MemoryAddress { value: self.value() - size.get() }
    }

    /// The first address at or after this one that is a multiple of
    /// `alignment`, or `None` when there is none in the addressable range.
    pub fn round_up_to_power_of_two(self, alignment: NonZeroUsize) -> (r: Option<Self>)
        ensures
            round_up(self@ as nat, alignment@ as nat) > usize::MAX <==> r is None,
            r matches Some(a) ==> a@ == round_up(self@ as nat, alignment@ as nat),
    {
        let value = self.value();
        let align = alignment.get();
        let remainder = value % align;
        if remainder == 0 {
            Some(self)
        } else {
            self.checked_add(align - remainder)
        }
    }
}

} // verus!
