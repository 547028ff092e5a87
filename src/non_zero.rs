//! Integers that are known never to be zero.

use vstd::arithmetic::power2::is_pow2;
use vstd::prelude::*;

verus! {

/// A `u32` that is never zero.
#[derive(Clone, Copy, Debug, PartialEq, Eq, Hash)]
pub struct NonZeroU32 {
    value: u32,
}

impl View for NonZeroU32 {
    type V = u32;

    closed spec fn view(&self) -> u32 {
        self.value
    }
}

impl NonZeroU32 {
    #[verifier::type_invariant]
    pub open spec fn inv(self) -> bool {
        self@ != 0
    }

    /// Wraps a value that the caller knows to be non-zero.
    pub fn non_zero(value: u32) -> (r: Self)
        requires
            value != 0,
        ensures
            r@ == value,
    {
        NonZeroU32 { value }
    }

    /// Wraps `value`, or `None` when it is zero.
    pub fn new(value: u32) -> (r: Option<Self>)
        ensures
            value == 0 <==> r is None,
            r matches Some(n) ==> n@ == value,
    {
        if value == 0 {
            None
        } else {
            Some(NonZeroU32 { value })
        }
    }

    /// The wrapped value.
    pub fn to_u32(self) -> (r: u32)
        ensures
            r == self@,
            r != 0,
    {
        proof {
            use_type_invariant(self);
        }
        self.value
    }

    /// The sum, or `None` when it does not fit in a `u32`.
    pub fn checked_add(self, increment: Self) -> (r: Option<Self>)
        ensures
            self@ + increment@ > u32::MAX <==> r is None,
            r matches Some(n) ==> n@ == self@ + increment@,
    {
        let a = self.to_u32();
        let b = increment.to_u32();
        match a.checked_add(b) {
            Some(sum) => Some(NonZeroU32::non_zero(sum)),
            None => None,
        }
    }

    /// Adds `increment` in place.
    pub fn add_assign(&mut self, increment: Self)
        requires
            old(self)@ + increment@ <= u32::MAX,
        ensures
            final(self)@ == old(self)@ + increment@,
    {
        let sum = self.to_u32() + increment.to_u32();
        *self = NonZeroU32::non_zero(sum);
    }

    /// The smallest power of two that is at least this value.
    pub fn next_power_of_two(self) -> (r: Self)
        requires
            self@ <= 0x8000_0000,
        ensures
            is_pow2(r@ as int),
            self@ <= r@,
            r@ == 1 || r@ / 2 < self@,
    {
        let target = self.to_u32();
        let mut power: u32 = 1;
        proof {
            reveal(is_pow2);
        }
        while power < target
            invariant
                is_pow2(power as int),
                power == 1 || power / 2 < target,
                target <= 0x8000_0000,
            decreases u32::MAX - power,
        {
            proof {
                reveal(is_pow2);
            }
            power = power * 2;
        }
        NonZeroU32::non_zero(power)
    }
}

/// A `usize` that is never zero: a size or an alignment.
#[derive(Clone, Copy, Debug, PartialEq, Eq, Hash)]
pub struct NonZeroUsize {
    value: usize,
}

impl View for NonZeroUsize {
    type V = usize;

    closed spec fn view(&self) -> usize {
        self.value
    }
}

impl NonZeroUsize {
    #[verifier::type_invariant]
    pub open spec fn inv(self) -> bool {
        self@ != 0
    }

    /// Wraps a value that the caller knows to be non-zero.
    pub fn non_zero(value: usize) -> (r: Self)
        requires
            value != 0,
        ensures
            r@ == value,
    {
        NonZeroUsize { value }
    }

    /// Wraps `value`, or `None` when it is zero.
    pub fn new(value: usize) -> (r: Option<Self>)
        ensures
            value == 0 <==> r is None,
            r matches Some(n) ==> n@ == value,
    {
        if value == 0 {
            None
        } else {
            Some(NonZeroUsize { value })
        }
    }

    /// The wrapped value.
    pub fn get(self) -> (r: usize)
        ensures
            r == self@,
            r != 0,
    {
        proof {
            use_type_invariant(self);
        }
        self.value
    }
}

} // verus!
