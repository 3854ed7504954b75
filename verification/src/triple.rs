//! Three-component vectors of double bit patterns.

use vstd::prelude::*;
use crate::fp::{add_bits, sub_bits, mul_bits, fp_add, fp_sub, fp_mul};

verus! {

/// A 3-component vector; each component is the bit pattern of an IEEE-754 double.
#[derive(Clone, Copy, PartialEq, Eq, Structural, Debug)]
pub struct Triple(pub u64, pub u64, pub u64);

/// Componentwise sum of two triples.
pub open spec fn triple_add(a: Triple, b: Triple) -> Triple {
    Triple(add_bits(a.0, b.0), add_bits(a.1, b.1), add_bits(a.2, b.2))
}

/// Componentwise difference of two triples.
pub open spec fn triple_sub(a: Triple, b: Triple) -> Triple {
    Triple(sub_bits(a.0, b.0), sub_bits(a.1, b.1), sub_bits(a.2, b.2))
}

/// Each component multiplied by the scalar `n`.
pub open spec fn triple_scale(a: Triple, n: u64) -> Triple {
    Triple(mul_bits(a.0, n), mul_bits(a.1, n), mul_bits(a.2, n))
}

/// The squared euclidean norm, summed left to right:
/// `(x*x + y*y) + z*z` in the named double arithmetic.
pub open spec fn triple_sum_squared(a: Triple) -> u64 {
    add_bits(add_bits(mul_bits(a.0, a.0), mul_bits(a.1, a.1)), mul_bits(a.2, a.2))
}

impl Triple {
    /// Componentwise vector sum.
    pub fn add(self, other: Triple) -> (r: Triple)
        ensures
            r == triple_add(self, other),
    {
        Triple(fp_add(self.0, other.0), fp_add(self.1, other.1), fp_add(self.2, other.2))
    }

    /// Componentwise vector difference.
    pub fn sub(self, other: Triple) -> (r: Triple)
        ensures
            r == triple_sub(self, other),
    {
        Triple(fp_sub(self.0, other.0), fp_sub(self.1, other.1), fp_sub(self.2, other.2))
    }

    /// The vector scaled by `n`.
    pub fn scale(self, n: u64) -> (r: Triple)
        ensures
            r == triple_scale(self, n),
    {
        Triple(fp_mul(self.0, n), fp_mul(self.1, n), fp_mul(self.2, n))
    }

    /// The squared euclidean norm of the vector.
    pub fn sum_squared(self) -> (r: u64)
        ensures
            r == triple_sum_squared(self),
    {
        fp_add(
            fp_add(fp_mul(self.0, self.0), fp_mul(self.1, self.1)),
            fp_mul(self.2, self.2),
        )
    }
}

} // verus!
