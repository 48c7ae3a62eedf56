//! Packed arithmetic over the Mersenne-31 prime field (modulus 2^31 - 1),
//! together with the protocol-parameter derivation that sizes a proof around
//! that field: number of repetitions and vectorization width.

pub mod config;
pub mod laws;
pub mod m31;
pub mod packed;
