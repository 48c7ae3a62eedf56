//! The scalar Mersenne-31 field element: a single reduced residue modulo
//! P = 2^31 - 1. The packed type replicates and combines these lane-wise.

use vstd::prelude::*;

verus! {

/// The Mersenne-31 prime modulus, 2^31 - 1.
pub const M31_MOD: u32 = 2147483647;

/// A single field element, held as the unique reduced residue in [0, P).
#[derive(Clone, Copy, PartialEq, Eq, Structural)]
pub struct M31 {
    pub v: u32,
}

impl M31 {
    /// A scalar is well formed when its representative is reduced.
    pub open spec fn well_formed(&self) -> bool {
        self.v < M31_MOD
    }

    /// Construct a field element by reducing an arbitrary 32-bit value mod P.
    pub fn new(x: u32) -> (r: M31)
        ensures
            r.v == x as int % M31_MOD as int,
            r.well_formed(),
    {
        M31 { v: x % M31_MOD }
    }

    /// The additive identity.
    pub fn zero() -> (r: M31)
        ensures
            r.v == 0,
            r.well_formed(),
    {
        M31 { v: 0 }
    }

    /// The multiplicative identity.
    pub fn one() -> (r: M31)
        ensures
            r.v == 1,
            r.well_formed(),
    {
        M31 { v: 1 }
    }
}

impl From<u32> for M31 {
    /// Reduces the integer modulo P, as `M31::new` does.
    fn from(x: u32) -> (r: M31) {
        M31::new(x)
    }
}

impl vstd::std_specs::convert::FromSpecImpl<u32> for M31 {
    open spec fn obeys_from_spec() -> bool {
        true
    }

    open spec fn from_spec(x: u32) -> M31 {
        M31 { v: x % M31_MOD }
    }
}

} // verus!
