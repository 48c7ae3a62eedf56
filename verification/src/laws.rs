//! The algebraic laws the packed operations obey, stated over the lane-wise
//! spec functions that the operations' contracts are written with. Each law
//! holds for every reduced lane sequence of the packing width.

use crate::m31::M31_MOD;
use crate::packed::{lanes_add, lanes_mul, reduced, splat, M31_PACK_SIZE};
use vstd::arithmetic::div_mod::{
    lemma_add_mod_noop, lemma_mod_self_0, lemma_mul_mod_noop_general, lemma_small_mod,
};
use vstd::arithmetic::mul::{
    lemma_mul_is_associative, lemma_mul_is_commutative, lemma_mul_is_distributive_add,
};
use vstd::prelude::*;

verus! {

/// The lane-wise additive inverse: 0 stays 0, a nonzero lane x becomes P - x.
pub open spec fn lanes_neg(a: Seq<u32>) -> Seq<u32> {
    Seq::new(
        a.len(),
        |i: int|
            if a[i] == 0 {
                0u32
            } else {
                (M31_MOD - a[i]) as u32
            },
    )
}

/// Adding zero in every lane changes nothing: A + zero() == A.
pub proof fn lemma_add_zero(a: Seq<u32>)
    requires
        reduced(a),
        a.len() == M31_PACK_SIZE,
    ensures
        lanes_add(a, splat(0)) == a,
{
    assert forall|i: int| 0 <= i < a.len() implies lanes_add(a, splat(0))[i] == a[i] by {
        lemma_small_mod(a[i] as nat, M31_MOD as nat);
    }
    assert(lanes_add(a, splat(0)) =~= a);
}

/// Every packed value has an additive inverse: A + (-A) == zero(), where -A
/// takes each nonzero lane x to P - x.
pub proof fn lemma_add_neg(a: Seq<u32>)
    requires
        reduced(a),
        a.len() == M31_PACK_SIZE,
    ensures
        reduced(lanes_neg(a)),
        lanes_add(a, lanes_neg(a)) == splat(0),
{
    assert forall|i: int| 0 <= i < a.len() implies lanes_add(a, lanes_neg(a))[i] == 0u32 by {
        if a[i] == 0 {
            lemma_small_mod(0, M31_MOD as nat);
        } else {
            lemma_mod_self_0(M31_MOD as int);
        }
    }
    assert(lanes_add(a, lanes_neg(a)) =~= splat(0));
}

/// Multiplying by one in every lane changes nothing: A * one() == A.
pub proof fn lemma_mul_one(a: Seq<u32>)
    requires
        reduced(a),
        a.len() == M31_PACK_SIZE,
    ensures
        lanes_mul(a, splat(1)) == a,
{
    assert forall|i: int| 0 <= i < a.len() implies lanes_mul(a, splat(1))[i] == a[i] by {
        lemma_small_mod(a[i] as nat, M31_MOD as nat);
    }
    assert(lanes_mul(a, splat(1)) =~= a);
}

/// Addition is commutative: A + B == B + A.
pub proof fn lemma_add_comm(a: Seq<u32>, b: Seq<u32>)
    requires
        a.len() == b.len(),
    ensures
        lanes_add(a, b) == lanes_add(b, a),
{
    assert(lanes_add(a, b) =~= lanes_add(b, a));
}

/// Addition is associative: (A + B) + C == A + (B + C).
pub proof fn lemma_add_assoc(a: Seq<u32>, b: Seq<u32>, c: Seq<u32>)
    requires
        reduced(a),
        reduced(b),
        reduced(c),
        a.len() == b.len(),
        b.len() == c.len(),
    ensures
        lanes_add(lanes_add(a, b), c) == lanes_add(a, lanes_add(b, c)),
{
    let p = M31_MOD as int;
    assert forall|i: int| 0 <= i < a.len() implies lanes_add(lanes_add(a, b), c)[i] == lanes_add(
        a,
        lanes_add(b, c),
    )[i] by {
        lemma_small_mod(a[i] as nat, M31_MOD as nat);
        lemma_small_mod(c[i] as nat, M31_MOD as nat);
        lemma_add_mod_noop(a[i] + b[i], c[i] as int, p);
        lemma_add_mod_noop(a[i] as int, b[i] + c[i], p);
    }
    assert(lanes_add(lanes_add(a, b), c) =~= lanes_add(a, lanes_add(b, c)));
}

/// Multiplication is commutative: A * B == B * A.
pub proof fn lemma_mul_comm(a: Seq<u32>, b: Seq<u32>)
    requires
        a.len() == b.len(),
    ensures
        lanes_mul(a, b) == lanes_mul(b, a),
{
    assert forall|i: int| 0 <= i < a.len() implies lanes_mul(a, b)[i] == lanes_mul(b, a)[i] by {
        lemma_mul_is_commutative(a[i] as int, b[i] as int);
    }
    assert(lanes_mul(a, b) =~= lanes_mul(b, a));
}

/// Multiplication is associative: (A * B) * C == A * (B * C).
pub proof fn lemma_mul_assoc(a: Seq<u32>, b: Seq<u32>, c: Seq<u32>)
    requires
        reduced(a),
        reduced(b),
        reduced(c),
        a.len() == b.len(),
        b.len() == c.len(),
    ensures
        lanes_mul(lanes_mul(a, b), c) == lanes_mul(a, lanes_mul(b, c)),
{
    let p = M31_MOD as int;
    assert forall|i: int| 0 <= i < a.len() implies lanes_mul(lanes_mul(a, b), c)[i] == lanes_mul(
        a,
        lanes_mul(b, c),
    )[i] by {
        let (x, y, z) = (a[i] as int, b[i] as int, c[i] as int);
        lemma_mul_mod_noop_general(x * y, z, p);
        lemma_mul_mod_noop_general(x, y * z, p);
        lemma_mul_is_associative(x, y, z);
    }
    assert(lanes_mul(lanes_mul(a, b), c) =~= lanes_mul(a, lanes_mul(b, c)));
}

/// Multiplication distributes over addition: A * (B + C) == A * B + A * C.
pub proof fn lemma_mul_distributes(a: Seq<u32>, b: Seq<u32>, c: Seq<u32>)
    requires
        reduced(a),
        reduced(b),
        reduced(c),
        a.len() == b.len(),
        b.len() == c.len(),
    ensures
        lanes_mul(a, lanes_add(b, c)) == lanes_add(lanes_mul(a, b), lanes_mul(a, c)),
{
    let p = M31_MOD as int;
    assert forall|i: int| 0 <= i < a.len() implies lanes_mul(a, lanes_add(b, c))[i] == lanes_add(
        lanes_mul(a, b),
        lanes_mul(a, c),
    )[i] by {
        let (x, y, z) = (a[i] as int, b[i] as int, c[i] as int);
        lemma_mul_mod_noop_general(x, y + z, p);
        lemma_mul_is_distributive_add(x, y, z);
        lemma_add_mod_noop(x * y, x * z, p);
    }
    assert(lanes_mul(a, lanes_add(b, c)) =~= lanes_add(lanes_mul(a, b), lanes_mul(a, c)));
}

/// Packing a scalar and reading any lane back returns the scalar.
pub proof fn lemma_pack_round_trip(x: u32, i: int)
    requires
        0 <= i < M31_PACK_SIZE,
    ensures
        splat(x)[i] == x,
{
}

} // verus!
