use m31_field::m31::{M31, M31_MOD};
use m31_field::packed::{near_modulus_negative, PackedM31, M31_PACK_SIZE, M31_VECTORIZE_SIZE};

const P: u32 = 2147483647;

fn lanes(x: &PackedM31) -> [u32; 4] {
    [x.lane(0), x.lane(1), x.lane(2), x.lane(3)]
}

fn assert_all_lanes(x: &PackedM31, expected: u32) {
    for i in 0..M31_PACK_SIZE {
        assert_eq!(x.lane(i), expected);
    }
}

fn assert_reduced(x: &PackedM31) {
    for i in 0..M31_PACK_SIZE {
        assert!(x.lane(i) < P);
    }
}

#[test]
fn modulus_constant() {
    assert_eq!(M31_MOD, 2147483647);
    assert_eq!(M31_MOD, (1u32 << 31) - 1);
    assert_eq!(M31_PACK_SIZE, 4);
    assert_eq!(M31_VECTORIZE_SIZE, 2);
}

#[test]
fn add_wraps_once() {
    let a = PackedM31::pack_full(M31::new(P - 1));
    let b = PackedM31::pack_full(M31::new(2));
    let c = a.add(&b);
    assert_all_lanes(&c, 1);
    assert_reduced(&c);
}

#[test]
fn sub_wraps_to_modulus_minus_one() {
    let a = PackedM31::pack_full(M31::new(0));
    let b = PackedM31::pack_full(M31::new(1));
    let c = a.sub(&b);
    assert_all_lanes(&c, 2147483646);
    assert_reduced(&c);
}

#[test]
fn mul_small_values() {
    let a = PackedM31::pack_full(M31::new(2));
    let b = PackedM31::pack_full(M31::new(3));
    let c = a.mul(&b);
    assert_all_lanes(&c, 6);
    assert_reduced(&c);
}

#[test]
fn mul_matches_wide_reference() {
    // Cross-check the reduction kernel against an independent wide-integer
    // multiplication followed by a plain modulo.
    let samples: [u32; 8] = [0, 1, 2, 1024, 65537, P / 2, P - 2, P - 1];
    for &a in samples.iter() {
        for &b in samples.iter() {
            let pa = PackedM31::pack_full(M31::new(a));
            let pb = PackedM31::pack_full(M31::new(b));
            let c = pa.mul(&pb);
            let expected = ((a as u64 * b as u64) % P as u64) as u32;
            assert_all_lanes(&c, expected);
            assert_reduced(&c);
        }
    }
}

#[test]
fn add_matches_wide_reference() {
    let samples: [u32; 6] = [0, 1, 1024, P / 2, P - 2, P - 1];
    for &a in samples.iter() {
        for &b in samples.iter() {
            let pa = PackedM31::pack_full(M31::new(a));
            let pb = PackedM31::pack_full(M31::new(b));
            let c = pa.add(&pb);
            let expected = ((a as u64 + b as u64) % P as u64) as u32;
            assert_all_lanes(&c, expected);
        }
    }
}

#[test]
fn sub_matches_wide_reference() {
    let samples: [u32; 6] = [0, 1, 1024, P / 2, P - 2, P - 1];
    for &a in samples.iter() {
        for &b in samples.iter() {
            let pa = PackedM31::pack_full(M31::new(a));
            let pb = PackedM31::pack_full(M31::new(b));
            let c = pa.sub(&pb);
            let expected = ((a as u64 + P as u64 - b as u64) % P as u64) as u32;
            assert_all_lanes(&c, expected);
        }
    }
}

#[test]
fn pack_full_round_trip() {
    let samples: [u32; 5] = [0, 1, 12345, P - 1025, P - 1];
    for &x in samples.iter() {
        let p = PackedM31::pack_full(M31::new(x));
        for i in 0..M31_PACK_SIZE {
            assert_eq!(p.lane(i), x);
        }
    }
}

#[test]
fn add_zero_is_identity() {
    let a = PackedM31::from_words_reduced([5, 0, P - 1, 123456789]);
    let c = a.add(&PackedM31::zero());
    assert_eq!(c, a);
}

#[test]
fn additive_inverse_exists() {
    let a = PackedM31::from_words_reduced([5, 0, P - 1, 123456789]);
    // Lane-wise P - x (0 for a zero lane) is the additive inverse.
    let neg = PackedM31::from_words_reduced([P - 5, 0, 1, P - 123456789]);
    let c = a.add(&neg);
    assert_eq!(c, PackedM31::zero());
}

#[test]
fn mul_one_is_identity() {
    let a = PackedM31::from_words_reduced([5, 0, P - 1, 123456789]);
    let c = a.mul(&PackedM31::one());
    assert_eq!(c, a);
}

#[test]
fn add_commutes_and_associates() {
    let a = PackedM31::from_words_reduced([5, 0, P - 1, 123456789]);
    let b = PackedM31::from_words_reduced([P - 2, 7, P - 1, 3]);
    let c = PackedM31::from_words_reduced([1, P - 7, 2, 99]);
    assert_eq!(a.add(&b), b.add(&a));
    assert_eq!(a.add(&b).add(&c), a.add(&b.add(&c)));
}

#[test]
fn mul_commutes_and_associates() {
    let a = PackedM31::from_words_reduced([5, 0, P - 1, 123456789]);
    let b = PackedM31::from_words_reduced([P - 2, 7, P - 1, 3]);
    let c = PackedM31::from_words_reduced([1, P - 7, 2, 99]);
    assert_eq!(a.mul(&b), b.mul(&a));
    assert_eq!(a.mul(&b).mul(&c), a.mul(&b.mul(&c)));
}

#[test]
fn mul_distributes_over_add() {
    let a = PackedM31::from_words_reduced([5, 0, P - 1, 123456789]);
    let b = PackedM31::from_words_reduced([P - 2, 7, P - 1, 3]);
    let c = PackedM31::from_words_reduced([1, P - 7, 2, 99]);
    assert_eq!(a.mul(&b.add(&c)), a.mul(&b).add(&a.mul(&c)));
}

#[test]
fn scalar_broadcast_consistency() {
    let a = PackedM31::from_words_reduced([5, 0, P - 1, 123456789]);
    let s = M31::new(987654321);
    assert_eq!(a.mul_scalar(&s), a.mul(&PackedM31::pack_full(s)));
}

#[test]
fn add_assign_matches_add() {
    let a = PackedM31::from_words_reduced([5, 0, P - 1, 123456789]);
    let b = PackedM31::from_words_reduced([P - 2, 7, P - 1, 3]);
    let mut c = a;
    c.add_assign(&b);
    assert_eq!(c, a.add(&b));
}

#[test]
fn from_u32_reduces() {
    let p = PackedM31::from(P + 5);
    assert_all_lanes(&p, 5);
    let q = PackedM31::from(7u32);
    assert_all_lanes(&q, 7);
}

#[test]
fn equality_is_lane_wise() {
    let a = PackedM31::from_words_reduced([1, 2, 3, 4]);
    let b = PackedM31::from_words_reduced([1, 2, 3, 4]);
    let c = PackedM31::from_words_reduced([1, 2, 3, 5]);
    assert_eq!(a, b);
    assert_ne!(a, c);
}

#[test]
fn default_is_zero() {
    assert_eq!(PackedM31::default(), PackedM31::zero());
}

#[test]
fn zero_and_one_lanes() {
    assert_all_lanes(&PackedM31::zero(), 0);
    assert_all_lanes(&PackedM31::one(), 1);
}

#[test]
fn from_words_reduces_each_lane() {
    let p = PackedM31::from_words_reduced([P, P + 1, u32::MAX, 3]);
    assert_eq!(lanes(&p), [0, 1, u32::MAX % P, 3]);
    assert_reduced(&p);
}

#[test]
fn from_bits_gives_zero_or_one() {
    let p = PackedM31::from_bits([true, false, false, true]);
    assert_eq!(lanes(&p), [1, 0, 0, 1]);
}

#[test]
fn random_lanes_are_reduced() {
    for _ in 0..100 {
        let p = PackedM31::random();
        assert_reduced(&p);
    }
}

#[test]
fn random_bool_lanes_are_bits() {
    for _ in 0..100 {
        let p = PackedM31::random_bool();
        for i in 0..M31_PACK_SIZE {
            assert!(p.lane(i) == 0 || p.lane(i) == 1);
        }
    }
}

#[test]
fn uniform_value_detects_agreement() {
    let a = PackedM31::pack_full(M31::new(42));
    assert_eq!(a.uniform_value(), Some(42));
    let b = PackedM31::from_words_reduced([1, 2, 3, 4]);
    assert_eq!(b.uniform_value(), None);
}

#[test]
fn near_modulus_rendering_decision() {
    assert_eq!(near_modulus_negative(P - 1), Some(1));
    assert_eq!(near_modulus_negative(P - 1024), Some(1024));
    assert_eq!(near_modulus_negative(P - 1025), None);
    assert_eq!(near_modulus_negative(0), None);
    assert_eq!(near_modulus_negative(5), None);
}
