//! Types used to specify indexes, ranges, lengths, and capacities of collections.
use vstd::prelude::*;

use crate::storage::utils::{min_non_zero_cap, spec_min_non_zero_cap};

verus! {

/// The smaller of two naturals.
pub open spec fn nat_min(a: nat, b: nat) -> nat {
    if a <= b {
        a
    } else {
        b
    }
}

/// The larger of two naturals.
pub open spec fn nat_max(a: nat, b: nat) -> nat {
    if a >= b {
        a
    } else {
        b
    }
}

/// Types which may be used to index and define the length and capacity of collections.
pub trait Index: Copy + Sized {
    /// The maximum representable value of this type.
    spec fn max_usize() -> nat;

    /// The value of this index as a natural number.
    spec fn as_nat(self) -> nat;

    /// Every index type can count at least to 255 and at most to `usize::MAX`,
    /// and every value lies within its range.
    proof fn lemma_index_bounds(self)
        ensures
            255 <= Self::max_usize() <= usize::MAX,
            self.as_nat() <= Self::max_usize(),
    ;

    /// The range of the index type lies between 255 and `usize::MAX`.
    proof fn lemma_max_bounds()
        ensures
            255 <= Self::max_usize() <= usize::MAX,
    ;

    /// The zero value.
    fn zero() -> (r: Self)
        ensures
            r.as_nat() == 0,
    ;

    /// The maximum representable value of this type as a `usize`.
    fn max_value() -> (r: usize)
        ensures
            r == Self::max_usize(),
    ;

    /// Create an instance of this type from a `usize`, which must lie within its range.
    fn from_usize(val: usize) -> (r: Self)
        requires
            val <= Self::max_usize(),
        ensures
            r.as_nat() == val,
    ;

    /// Try to create an instance of this type from a `usize`.
    fn try_from_usize(val: usize) -> (r: Option<Self>)
        ensures
            val <= Self::max_usize() ==> (r matches Some(x) && x.as_nat() == val),
            val > Self::max_usize() ==> r is None,
    ;

    /// Convert this instance into a `usize`.
    fn to_usize(self) -> (r: usize)
        ensures
            r == self.as_nat(),
    ;

    /// Add a `usize` without exceeding the bounds of this type.
    fn saturating_add(self, val: usize) -> (r: Self)
        ensures
            r.as_nat() == nat_min((self.as_nat() + val) as nat, Self::max_usize()),
    ;

    /// Subtract a `usize` without going below zero.
    fn saturating_sub(self, val: usize) -> (r: Self)
        ensures
            r.as_nat() == (if self.as_nat() >= val {
                (self.as_nat() - val) as nat
            } else {
                0
            }),
    ;

    /// Multiply by a `usize` without exceeding the bounds of this type.
    fn saturating_mul(self, val: usize) -> (r: Self)
        ensures
            r.as_nat() == nat_min((self.as_nat() * val) as nat, Self::max_usize()),
    ;
}

impl Index for u8 {
    open spec fn max_usize() -> nat {
        255
    }

    open spec fn as_nat(self) -> nat {
        self as nat
    }

    proof fn lemma_index_bounds(self) {
    }

    proof fn lemma_max_bounds() {
    }

    fn zero() -> (r: Self) {
        0
    }

    fn max_value() -> (r: usize) {
        255
    }

    fn from_usize(val: usize) -> (r: Self) {
        val as u8
    }

    fn try_from_usize(val: usize) -> (r: Option<Self>) {
        if val <= 255 {
            Some(val as u8)
        } else {
            None
        }
    }

    fn to_usize(self) -> (r: usize) {
        self as usize
    }

    fn saturating_add(self, val: usize) -> (r: Self) {
        if val >= 255 - self as usize {
            255
        } else {
            (self as usize + val) as u8
        }
    }

    fn saturating_sub(self, val: usize) -> (r: Self) {
        if val >= self as usize {
            0
        } else {
            (self as usize - val) as u8
        }
    }

    fn saturating_mul(self, val: usize) -> (r: Self) {
        let s: usize = self as usize;
        if s == 0 || val == 0 {
            proof {
                assert(s * val == 0) by (nonlinear_arith)
                    requires
                        s == 0 || val == 0,
                ;
            }
            0
        } else if val > 255 / s {
            proof {
                assert(s * val > 255) by (nonlinear_arith)
                    requires
                        s > 0,
                        val > 255usize / s,
                ;
            }
            255
        } else {
            proof {
                assert(s * val <= 255) by (nonlinear_arith)
                    requires
                        s > 0,
                        val <= 255usize / s,
                ;
            }
            (s * val) as u8
        }
    }
}

impl Index for usize {
    open spec fn max_usize() -> nat {
        usize::MAX as nat
    }

    open spec fn as_nat(self) -> nat {
        self as nat
    }

    proof fn lemma_index_bounds(self) {
    }

    proof fn lemma_max_bounds() {
    }

    fn zero() -> (r: Self) {
        0
    }

    fn max_value() -> (r: usize) {
        usize::MAX
    }

    fn from_usize(val: usize) -> (r: Self) {
        val
    }

    fn try_from_usize(val: usize) -> (r: Option<Self>) {
        Some(val)
    }

    fn to_usize(self) -> (r: usize) {
        self
    }

    fn saturating_add(self, val: usize) -> (r: Self) {
        if val >= usize::MAX - self {
            usize::MAX
        } else {
            self + val
        }
    }

    fn saturating_sub(self, val: usize) -> (r: Self) {
        if val >= self {
            0
        } else {
            self - val
        }
    }

    fn saturating_mul(self, val: usize) -> (r: Self) {
        let s: usize = self;
        if s == 0 || val == 0 {
            proof {
                assert(s * val == 0) by (nonlinear_arith)
                    requires
                        s == 0 || val == 0,
                ;
            }
            0
        } else if val > usize::MAX / s {
            proof {
                assert(s * val > usize::MAX) by (nonlinear_arith)
                    requires
                        s > 0,
                        val > usize::MAX / s,
                ;
            }
            usize::MAX
        } else {
            proof {
                assert(s * val <= usize::MAX) by (nonlinear_arith)
                    requires
                        s > 0,
                        val <= usize::MAX / s,
                ;
            }
            s * val
        }
    }
}

/// Growth behavior for collections which have exceeded their available storage.
pub trait Grow {
    /// The capacity requested after `prev` when at least `minimum` items must fit,
    /// given the smallest worthwhile non-zero capacity `min_cap` for the item type
    /// and the largest value `max` of the index type.
    spec fn spec_next_capacity(prev: nat, minimum: nat, min_cap: nat, max: nat) -> nat;

    /// The next capacity is never below the minimum, and stays within `max`
    /// when both the minimum and `min_cap` do.
    proof fn lemma_next_capacity_bounds(prev: nat, minimum: nat, min_cap: nat, max: nat)
        requires
            minimum <= max,
            min_cap <= max,
        ensures
            minimum <= Self::spec_next_capacity(prev, minimum, min_cap, max) <= max,
    ;

    /// Calculate the next capacity to request from the allocator.
    fn next_capacity<T, I: Index>(prev: I, minimum: I) -> (r: I)
        ensures
            r.as_nat() == Self::spec_next_capacity(
                prev.as_nat(),
                minimum.as_nat(),
                spec_min_non_zero_cap::<T>(),
                I::max_usize(),
            ),
            r.as_nat() >= minimum.as_nat(),
    ;
}

/// Growth behavior which never requests extra capacity.
#[derive(Debug, Copy, Clone, Default, PartialEq, Eq, PartialOrd, Ord)]
pub struct GrowExact;

impl Grow for GrowExact {
    open spec fn spec_next_capacity(prev: nat, minimum: nat, min_cap: nat, max: nat) -> nat {
        minimum
    }

    proof fn lemma_next_capacity_bounds(prev: nat, minimum: nat, min_cap: nat, max: nat) {
    }

    fn next_capacity<T, I: Index>(prev: I, minimum: I) -> (r: I) {
        minimum
    }
}

/// The capacity preferred by doubling growth: the minimum non-zero capacity
/// for an empty collection, otherwise twice the previous capacity (saturating).
pub open spec fn doubling_preferred(prev: nat, min_cap: nat, max: nat) -> nat {
    if prev == 0 {
        min_cap
    } else {
        nat_min((prev * 2) as nat, max)
    }
}

/// Growth behavior which consistently doubles in size.
#[derive(Debug, Copy, Clone, Default, PartialEq, Eq, PartialOrd, Ord)]
pub struct GrowDoubling;

impl Grow for GrowDoubling {
    open spec fn spec_next_capacity(prev: nat, minimum: nat, min_cap: nat, max: nat) -> nat {
        nat_max(doubling_preferred(prev, min_cap, max), minimum)
    }

    proof fn lemma_next_capacity_bounds(prev: nat, minimum: nat, min_cap: nat, max: nat) {
    }

    fn next_capacity<T, I: Index>(prev: I, minimum: I) -> (r: I) {
        let preferred: I = if prev.to_usize() == 0 {
            let m: usize = min_non_zero_cap::<T>();
            proof {
                I::lemma_max_bounds();
            }
            I::from_usize(m)
        } else {
            prev.saturating_mul(2)
        };
        if preferred.to_usize() >= minimum.to_usize() {
            preferred
        } else {
            minimum
        }
    }
}

/// Doubling growth at least doubles a non-empty capacity, up to the range of
/// the index type, and never returns less than the requested minimum.
pub proof fn law_doubling_growth(prev: nat, minimum: nat, min_cap: nat, max: nat)
    requires
        prev <= max,
        minimum <= max,
        min_cap <= max,
    ensures
        GrowDoubling::spec_next_capacity(prev, minimum, min_cap, max) >= minimum,
        prev > 0 ==> GrowDoubling::spec_next_capacity(prev, minimum, min_cap, max) >= nat_min(
            (2 * prev) as nat,
            max,
        ),
        prev == 0 ==> GrowDoubling::spec_next_capacity(prev, minimum, min_cap, max) >= min_cap,
        GrowDoubling::spec_next_capacity(prev, minimum, min_cap, max) <= max,
{
}

} // verus!
