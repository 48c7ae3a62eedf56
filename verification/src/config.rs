//! Protocol-parameter derivation: translates the target security level and
//! the field's properties into the number of independent repetitions and the
//! vectorization width the proof protocol runs with.

use vstd::prelude::*;

verus! {

/// The polynomial-commitment scheme the protocol is configured with.
#[derive(Debug, Clone, PartialEq, Eq, Structural)]
pub enum PolynomialCommitmentType {
    Raw,
    KZG,
    Orion,
    FRI,
}

/// The base field the protocol runs over.
#[derive(Debug, Clone, PartialEq, Eq, Structural)]
pub enum FieldType {
    M31,
    BabyBear,
    BN254,
}

/// The hash used to derive Fiat-Shamir challenges.
#[derive(Debug, Clone)]
pub enum FiatShamirHashType {
    SHA256,
    Keccak256,
    Poseidon,
    Animoe,
    MIMC7,
}

/// Lanes per packed register of the packed field implementation the protocol
/// is sized for.
const M31_PACK_SIZE: usize = 8;

/// Bits of soundness one repetition of the given field contributes.
pub open spec fn spec_field_size(field_type: FieldType) -> int {
    match field_type {
        FieldType::M31 => 31,
        FieldType::BabyBear => 31,
        FieldType::BN254 => 254,
    }
}

/// Bits of soundness one repetition of the given field contributes.
pub fn field_bit_size(field_type: &FieldType) -> (r: usize)
    ensures
        r == spec_field_size(*field_type),
{
    match field_type {
        FieldType::M31 => 31,
        FieldType::BabyBear => 31,
        FieldType::BN254 => 254,
    }
}

/// The number of independent repetitions needed to reach the target
/// soundness: the grinding bits come for free, and each repetition
/// contributes field_size bits, so this is ceil((security - grinding) /
/// field_size) -- the least count whose contribution covers the target.
pub fn derive_num_repetitions(security_bits: usize, grinding_bits: usize, field_size: usize) -> (r:
    usize)
    requires
        grinding_bits <= security_bits,
        field_size >= 1,
        security_bits - grinding_bits + field_size - 1 <= usize::MAX,
    ensures
        r == (security_bits - grinding_bits + field_size - 1) as int / field_size as int,
        field_size * r >= security_bits - grinding_bits,
        field_size * r < security_bits - grinding_bits + field_size,
{
    let n = security_bits - grinding_bits + (field_size - 1);
    proof {
        vstd::arithmetic::div_mod::lemma_fundamental_div_mod(n as int, field_size as int);
        vstd::arithmetic::div_mod::lemma_mod_bound(n as int, field_size as int);
    }
    n / field_size
}

/// The vectorization width: how many packed registers fill the available
/// parallelism. Only the M31 field kind is packed; for the others the width
/// is 0, signaling "not applicable".
pub fn derive_vectorize_size(field_type: &FieldType, num_parallel: usize, pack_size: usize) -> (r:
    usize)
    requires
        pack_size >= 1,
    ensures
        r == (if *field_type == FieldType::M31 {
            num_parallel as int / pack_size as int
        } else {
            0int
        }),
{
    match field_type {
        FieldType::M31 => num_parallel / pack_size,
        _ => 0,
    }
}

/// The protocol parameters, derived once at startup and read-only after.
#[derive(Debug, Clone)]
pub struct Config {
    pub num_repetitions: usize,
    pub vectorize_size: usize,
    pub field_size: usize,
    pub security_bits: usize,
    pub grinding_bits: usize,
    pub num_parallel: usize,
    pub polynomial_commitment_type: PolynomialCommitmentType,
    pub field_type: FieldType,
    pub fs_hash: FiatShamirHashType,
}

impl Config {
    /// The commitment scheme and the field must agree: KZG needs pairings,
    /// which only the BN254 field supports. A configuration violating this
    /// is unsound and must never be constructed.
    pub open spec fn compatible(&self) -> bool {
        self.polynomial_commitment_type == PolynomialCommitmentType::KZG
            ==> self.field_type == FieldType::BN254
    }

    /// Build the startup configuration from its fixed constants and derive
    /// the repetition count and vectorization width from them.
    pub fn new() -> (c: Config)
        ensures
            c.compatible(),
            c.security_bits == 100,
            c.grinding_bits == 10,
            c.num_parallel == 16,
            c.field_size == 31,
            c.num_repetitions == 3,
            c.vectorize_size == 2,
            c.polynomial_commitment_type == PolynomialCommitmentType::Raw,
            c.field_type == FieldType::M31,
            c.fs_hash == FiatShamirHashType::SHA256,
    {
        let security_bits: usize = 100;
        let grinding_bits: usize = 10;
        let num_parallel: usize = 16;

        let field_type = FieldType::M31;
        let field_size = field_bit_size(&field_type);
        let vectorize_size = derive_vectorize_size(&field_type, num_parallel, M31_PACK_SIZE);

        let num_repetitions = derive_num_repetitions(security_bits, grinding_bits, field_size);

        let polynomial_commitment_type = PolynomialCommitmentType::Raw;
        let fs_hash = FiatShamirHashType::SHA256;

        Config {
            num_repetitions,
            vectorize_size,
            field_size,
            security_bits,
            grinding_bits,
            num_parallel,
            polynomial_commitment_type,
            field_type,
            fs_hash,
        }
    }

    /// How many independent field-element streams the protocol carries.
    pub fn get_num_repetitions(&self) -> (r: usize)
        ensures
            r == self.num_repetitions,
    {
        self.num_repetitions
    }
}

} // verus!
