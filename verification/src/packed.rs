//! The packed Mersenne-31 field element: a fixed-width vector of reduced
//! residues, combined lane-wise by the reduction-kernel-backed operations.

use crate::m31::{M31, M31_MOD};
use rand::Rng;
use vstd::arithmetic::div_mod::{
    lemma_div_is_ordered, lemma_fundamental_div_mod, lemma_mod_add_multiples_vanish,
    lemma_mod_bound, lemma_mod_multiples_vanish, lemma_mod_sub_multiples_vanish, lemma_small_mod,
    lemma_sub_mod_noop,
};
use vstd::arithmetic::power2::lemma2_to64;
use vstd::bits::lemma_u64_shr_is_div;
use vstd::prelude::*;

verus! {

broadcast use vstd::array::group_array_axioms;

/// Number of scalar lanes one packed element holds.
pub const M31_PACK_SIZE: usize = 4;

/// How many packed registers compose one logical vector lane of the
/// surrounding protocol.
pub const M31_VECTORIZE_SIZE: usize = 2;

/// A sequence of lane values is reduced when every lane lies in [0, P).
pub open spec fn reduced(s: Seq<u32>) -> bool {
    forall|i: int| 0 <= i < s.len() ==> s[i] < M31_MOD
}

/// One scalar replicated into every lane.
pub open spec fn splat(x: u32) -> Seq<u32> {
    Seq::new(M31_PACK_SIZE as nat, |i: int| x)
}

/// Lane-wise modular sum.
pub open spec fn lanes_add(a: Seq<u32>, b: Seq<u32>) -> Seq<u32> {
    Seq::new(a.len(), |i: int| ((a[i] + b[i]) % (M31_MOD as int)) as u32)
}

/// Lane-wise modular difference.
pub open spec fn lanes_sub(a: Seq<u32>, b: Seq<u32>) -> Seq<u32> {
    Seq::new(a.len(), |i: int| ((a[i] - b[i]) % (M31_MOD as int)) as u32)
}

/// Lane-wise modular product.
pub open spec fn lanes_mul(a: Seq<u32>, b: Seq<u32>) -> Seq<u32> {
    Seq::new(a.len(), |i: int| ((a[i] * b[i]) % (M31_MOD as int)) as u32)
}

/// A fixed-width vector of lanes, each holding one reduced residue.
#[derive(Clone, Copy, Debug)]
pub struct PackedM31 {
    pub v: [u32; M31_PACK_SIZE],
}

impl PartialEq for PackedM31 {
    /// Two packed values are equal iff every lane is equal.
    fn eq(&self, other: &PackedM31) -> (r: bool) {
        let r = self.v[0] == other.v[0] && self.v[1] == other.v[1] && self.v[2] == other.v[2]
            && self.v[3] == other.v[3];
        proof {
            if r {
                assert(self.v@ =~= other.v@);
            }
        }
        r
    }
}

impl vstd::std_specs::cmp::PartialEqSpecImpl for PackedM31 {
    open spec fn obeys_eq_spec() -> bool {
        true
    }

    open spec fn eq_spec(&self, other: &PackedM31) -> bool {
        self@ == other@
    }
}

impl View for PackedM31 {
    type V = Seq<u32>;

    open spec fn view(&self) -> Seq<u32> {
        self.v@
    }
}

impl PackedM31 {
    /// Every lane lies in [0, P): the invariant each public operation
    /// establishes on its result.
    pub open spec fn well_formed(&self) -> bool {
        reduced(self@)
    }

    /// Replicate a single scalar residue into all lanes.
    pub fn pack_full(x: M31) -> (r: PackedM31)
        requires
            x.well_formed(),
        ensures
            r@ == splat(x.v),
            r.well_formed(),
    {
        let r = PackedM31 { v: [x.v, x.v, x.v, x.v] };
        proof {
            assert(r@ =~= splat(x.v));
        }
        r
    }

    /// Every lane holds 0, the additive identity.
    pub fn zero() -> (r: PackedM31)
        ensures
            r@ == splat(0),
            r.well_formed(),
    {
        PackedM31::pack_full(M31::zero())
    }

    /// Every lane holds 1, the multiplicative identity.
    pub fn one() -> (r: PackedM31)
        ensures
            r@ == splat(1),
            r.well_formed(),
    {
        PackedM31::pack_full(M31::one())
    }

    /// Read one lane back out, by index.
    pub fn lane(&self, i: usize) -> (r: u32)
        requires
            i < M31_PACK_SIZE,
        ensures
            r == self@[i as int],
    {
        self.v[i]
    }

    /// Lane-wise modular addition: C[i] = (A[i] + B[i]) mod P.
    pub fn add(&self, rhs: &PackedM31) -> (r: PackedM31)
        requires
            self.well_formed(),
            rhs.well_formed(),
        ensures
            r@ == lanes_add(self@, rhs@),
            r.well_formed(),
    {
        let r = PackedM31 {
            v: [
                add_reduce(self.v[0], rhs.v[0]),
                add_reduce(self.v[1], rhs.v[1]),
                add_reduce(self.v[2], rhs.v[2]),
                add_reduce(self.v[3], rhs.v[3]),
            ],
        };
        proof {
            assert(r@ =~= lanes_add(self@, rhs@));
        }
        r
    }

    /// Lane-wise modular subtraction: C[i] = (A[i] - B[i]) mod P.
    pub fn sub(&self, rhs: &PackedM31) -> (r: PackedM31)
        requires
            self.well_formed(),
            rhs.well_formed(),
        ensures
            r@ == lanes_sub(self@, rhs@),
            r.well_formed(),
    {
        let r = PackedM31 {
            v: [
                sub_reduce(self.v[0], rhs.v[0]),
                sub_reduce(self.v[1], rhs.v[1]),
                sub_reduce(self.v[2], rhs.v[2]),
                sub_reduce(self.v[3], rhs.v[3]),
            ],
        };
        proof {
            assert(r@ =~= lanes_sub(self@, rhs@));
        }
        r
    }

    /// Lane-wise modular multiplication: C[i] = (A[i] * B[i]) mod P.
    pub fn mul(&self, rhs: &PackedM31) -> (r: PackedM31)
        requires
            self.well_formed(),
            rhs.well_formed(),
        ensures
            r@ == lanes_mul(self@, rhs@),
            r.well_formed(),
    {
        let r = PackedM31 {
            v: [
                mul_reduce(self.v[0], rhs.v[0]),
                mul_reduce(self.v[1], rhs.v[1]),
                mul_reduce(self.v[2], rhs.v[2]),
                mul_reduce(self.v[3], rhs.v[3]),
            ],
        };
        proof {
            assert(r@ =~= lanes_mul(self@, rhs@));
        }
        r
    }

    /// Multiplying by a single scalar is multiplying by that scalar
    /// replicated into all lanes.
    pub fn mul_scalar(&self, rhs: &M31) -> (r: PackedM31)
        requires
            self.well_formed(),
            rhs.well_formed(),
        ensures
            r@ == lanes_mul(self@, splat(rhs.v)),
            r.well_formed(),
    {
        let rhs_p = PackedM31::pack_full(*rhs);
        self.mul(&rhs_p)
    }

    /// Pack four arbitrary 32-bit words, reducing each modulo P. This is the
    /// whole computation `random` performs once its words are drawn.
    pub fn from_words_reduced(w: [u32; M31_PACK_SIZE]) -> (r: PackedM31)
        ensures
            forall|i: int|
                0 <= i < M31_PACK_SIZE ==> r@[i] == w@[i] as int % M31_MOD as int,
            r.well_formed(),
    {
        let r = PackedM31 {
            v: [w[0] % M31_MOD, w[1] % M31_MOD, w[2] % M31_MOD, w[3] % M31_MOD],
        };
        proof {
            assert forall|i: int| 0 <= i < M31_PACK_SIZE implies r@[i] == w@[i] as int
                % M31_MOD as int by {
                assert(r@ =~= seq![r.v[0], r.v[1], r.v[2], r.v[3]]);
            }
        }
        r
    }

    /// Pack four coin flips as 0/1 lane values. This is the whole computation
    /// `random_bool` performs once its bits are drawn.
    pub fn from_bits(bits: [bool; M31_PACK_SIZE]) -> (r: PackedM31)
        ensures
            forall|i: int|
                0 <= i < M31_PACK_SIZE ==> r@[i] == (if bits@[i] {
                    1u32
                } else {
                    0u32
                }),
            r.well_formed(),
    {
        let r = PackedM31 {
            v: [
                if bits[0] { 1 } else { 0 },
                if bits[1] { 1 } else { 0 },
                if bits[2] { 1 } else { 0 },
                if bits[3] { 1 } else { 0 },
            ],
        };
        r
    }

    /// Every lane independently drawn from [0, P) by reducing a 32-bit draw
    /// modulo P (rejection-free, so very slightly biased; the draws
    /// themselves carry no promise, only the reduction is stated).
    pub fn random() -> (r: PackedM31)
        ensures
            r.well_formed(),
    {
        PackedM31::from_words_reduced([random_u32(), random_u32(), random_u32(), random_u32()])
    }

    /// Every lane independently 0 or 1.
    pub fn random_bool() -> (r: PackedM31)
        ensures
            forall|i: int| 0 <= i < M31_PACK_SIZE ==> (r@[i] == 0 || r@[i] == 1),
            r.well_formed(),
    {
        PackedM31::from_bits([random_bit(), random_bit(), random_bit(), random_bit()])
    }

    /// The single value all lanes hold, when they agree; None otherwise.
    /// The debug renderer prints a uniform vector as that one value.
    pub fn uniform_value(&self) -> (r: Option<u32>)
        ensures
            r == (if self@ == splat(self@[0]) {
                Some(self@[0])
            } else {
                None::<u32>
            }),
    {
        let all_same = self.v[1] == self.v[0] && self.v[2] == self.v[0] && self.v[3] == self.v[0];
        proof {
            if all_same {
                assert(self@ =~= splat(self@[0]));
            } else {
                if self@ == splat(self@[0]) {
                    assert(self@[1] == splat(self@[0])[1]);
                    assert(self@[2] == splat(self@[0])[2]);
                    assert(self@[3] == splat(self@[0])[3]);
                }
            }
        }
        if all_same {
            Some(self.v[0])
        } else {
            None
        }
    }

    /// In-place addition, with the same lane-wise semantics as `add`;
    /// mutates only the receiver.
    pub fn add_assign(&mut self, rhs: &PackedM31)
        requires
            old(self).well_formed(),
            rhs.well_formed(),
        ensures
            final(self)@ == lanes_add(old(self)@, rhs@),
            final(self).well_formed(),
    {
        let s = *self;
        *self = s.add(rhs);
    }
}

/// One-step reduction: for a value below 2P, pick whichever of x and x - P
/// lies in [0, P). The subtraction wraps when x < P; the wrapped value is
/// then above x and is discarded by the minimum.
fn reduce_sum(x: u32) -> (r: u32)
    requires
        x < 2 * M31_MOD,
    ensures
        r == x as int % M31_MOD as int,
        r < M31_MOD,
{
    let y = x.wrapping_sub(M31_MOD);
    proof {
        if x < M31_MOD {
            lemma_small_mod(x as nat, M31_MOD as nat);
        } else {
            lemma_mod_sub_multiples_vanish(x as int, M31_MOD as int);
            lemma_small_mod((x - M31_MOD) as nat, M31_MOD as nat);
        }
    }
    if x < y {
        x
    } else {
        y
    }
}

/// Whether a reduced residue sits within 1024 of the modulus: such a value is
/// congruent to a small negative number, and the debug renderer prints it
/// that way. Returns the magnitude P - x of that negative number, or None
/// when the value should be printed as it is.
pub fn near_modulus_negative(x: u32) -> (r: Option<u32>)
    requires
        x < M31_MOD,
    ensures
        r == (if M31_MOD - x <= 1024 {
            Some((M31_MOD - x) as u32)
        } else {
            None::<u32>
        }),
{
    let d = M31_MOD - x;
    if d <= 1024 {
        Some(d)
    } else {
        None
    }
}

impl From<u32> for PackedM31 {
    /// Reduces the integer modulo P and replicates it into all lanes.
    fn from(x: u32) -> (r: PackedM31) {
        let r = PackedM31::pack_full(M31::new(x));
        proof {
            let e: [u32; M31_PACK_SIZE] = [x % M31_MOD, x % M31_MOD, x % M31_MOD, x % M31_MOD];
            assert(r.v =~= e);
        }
        r
    }
}

impl vstd::std_specs::convert::FromSpecImpl<u32> for PackedM31 {
    open spec fn obeys_from_spec() -> bool {
        true
    }

    open spec fn from_spec(x: u32) -> PackedM31 {
        PackedM31 { v: [x % M31_MOD, x % M31_MOD, x % M31_MOD, x % M31_MOD] }
    }
}

impl Default for PackedM31 {
    /// The default packed value is zero in every lane.
    fn default() -> (r: PackedM31)
        ensures
            r@ == splat(0),
            r.well_formed(),
    {
        PackedM31::zero()
    }
}

/// Relies on rand::rngs::ThreadRng and rand::Rng::gen::<u32>: draws one
/// 32-bit value from the thread-local generator. Nothing is promised of the
/// outcome; every u32 is a possible result.
#[verifier::external_body]
fn random_u32() -> u32 {
    rand::thread_rng().gen::<u32>()
}

/// Relies on rand::rngs::ThreadRng and rand::Rng::gen::<bool>: draws one
/// boolean from the thread-local generator, each outcome equally likely.
/// Nothing is promised of the outcome.
#[verifier::external_body]
fn random_bit() -> bool {
    rand::thread_rng().gen::<bool>()
}

/// Lane kernel for addition: the plain sum of two reduced residues is below
/// 2P, so one reduction step lands it back in [0, P).
fn add_reduce(a: u32, b: u32) -> (r: u32)
    requires
        a < M31_MOD,
        b < M31_MOD,
    ensures
        r == (a + b) % (M31_MOD as int),
        r < M31_MOD,
{
    reduce_sum(a + b)
}

/// Lane kernel for subtraction: the raw difference may wrap; adding P back
/// and keeping the minimum recovers the reduced residue either way, because
/// exactly one of the two candidates lies in [0, P).
fn sub_reduce(a: u32, b: u32) -> (r: u32)
    requires
        a < M31_MOD,
        b < M31_MOD,
    ensures
        r == (a - b) % (M31_MOD as int),
        r < M31_MOD,
{
    let diff = a.wrapping_sub(b);
    let u = diff.wrapping_add(M31_MOD);
    proof {
        if a >= b {
            lemma_small_mod((a - b) as nat, M31_MOD as nat);
        } else {
            lemma_mod_add_multiples_vanish(
                a as int - b as int,
                M31_MOD as int,
            );
            lemma_small_mod((a - b + M31_MOD) as nat, M31_MOD as nat);
        }
    }
    if diff < u {
        diff
    } else {
        u
    }
}

/// Lane kernel for multiplication. Write the 62-bit product as
/// q * 2^31 + r with q the high part (a multiply-high primitive) and r the
/// low 31 bits. Since 2^31 is congruent to 1 modulo P, the product is
/// congruent to q + r, and the wrapping computation lo - hi * P yields
/// exactly q + r, which is below 2P and safe for the one-step reduction.
fn mul_reduce(a: u32, b: u32) -> (res: u32)
    requires
        a < M31_MOD,
        b < M31_MOD,
    ensures
        res == (a * b) % (M31_MOD as int),
        res < M31_MOD,
{
    proof {
        assert((a as int) * (b as int) <= 0x3fffffff00000004) by (nonlinear_arith)
            requires
                a as int <= 0x7ffffffe,
                b as int <= 0x7ffffffe,
        ;
    }
    let prod: u64 = (a as u64) * (b as u64);
    let hi: u32 = (prod >> 31u64) as u32;
    let lo: u32 = a.wrapping_mul(b);
    let t: u32 = lo.wrapping_sub(hi.wrapping_mul(M31_MOD));
    proof {
        let p = M31_MOD as int;
        let m = 0x100000000int;
        let q = prod as int / 0x80000000;
        let r0 = prod as int % 0x80000000;
        lemma_u64_shr_is_div(prod, 31);
        lemma2_to64();
        lemma_fundamental_div_mod(prod as int, 0x80000000);
        lemma_mod_bound(prod as int, 0x80000000);
        lemma_div_is_ordered(prod as int, 0x3fffffff00000004, 0x80000000);
        assert(hi == q);
        // The wrapped 32-bit quantities agree with prod and q * p modulo 2^32,
        // so t is exactly q + r0, the sum of the high and low parts.
        lemma_sub_mod_noop(prod as int, q * p, m);
        lemma_small_mod((q + r0) as nat, m as nat);
        if lo as int - (q * p) % m < 0 {
            lemma_mod_add_multiples_vanish(lo as int - (q * p) % m, m);
        }
        lemma_small_mod(t as nat, m as nat);
        assert(t == q + r0);
        // prod = p*q + (q + r0), so dropping the multiple of p leaves t.
        lemma_mod_multiples_vanish(q, t as int, p);
    }
    reduce_sum(t)
}

} // verus!
