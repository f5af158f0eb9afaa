use ark_bls12_381::{Fr, G1Affine, G1Projective, G2Affine};
use ark_ec::scalar_mul::fixed_base::FixedBase;
use ark_ec::{AffineRepr, CurveGroup};
use ark_ff::{BigInt, Field, PrimeField};
use ark_serialize::CanonicalSerialize;
use ark_std::rand::rngs::StdRng;
use ark_std::rand::SeedableRng;
use ark_std::UniformRand;
use mercury_srs::fixed_base::fixed_base_powers;
use mercury_srs::scalar::{exponent_ladder, SCALAR_BITS};
use mercury_srs::{G1Point, G2Point, Scalar};

const MODULUS_LIMBS: [u64; 4] = [
    0xffffffff00000001,
    0x53bda402fffe5bfe,
    0x3339d80809a1d805,
    0x73eda753299d7d48,
];

fn arith_g1_from_ark(p: &G1Affine) -> G1Point {
    let mut bytes = [0u8; 48];
    p.serialize_compressed(&mut bytes[..]).unwrap();
    G1Point { bytes }
}

fn arith_scalar_to_ark(s: &Scalar) -> Fr {
    Fr::from_bigint(BigInt::new(s.limbs)).unwrap()
}

#[test]
fn the_modulus_is_that_of_the_scalar_field() {
    assert_eq!(Fr::MODULUS.0, MODULUS_LIMBS);
    assert_eq!(Fr::MODULUS_BIT_SIZE as usize, SCALAR_BITS);
}

#[test]
fn from_limbs_accepts_exactly_the_reduced_values() {
    assert_eq!(Scalar::from_limbs(MODULUS_LIMBS), None);
    let mut below = MODULUS_LIMBS;
    below[0] -= 1;
    assert_eq!(Scalar::from_limbs(below), Some(Scalar { limbs: below }));
    let mut above = MODULUS_LIMBS;
    above[0] += 1;
    assert_eq!(Scalar::from_limbs(above), None);
    assert_eq!(Scalar::from_limbs([0, 0, 0, 0]), Some(Scalar { limbs: [0, 0, 0, 0] }));
    assert_eq!(Scalar::from_limbs([u64::MAX; 4]), None);
    // A smaller low limb does not make up for a larger high limb.
    assert_eq!(Scalar::from_limbs([0, 0, 0, 0x73eda753299d7d49]), None);
    // A larger low limb does not matter under a smaller high limb.
    assert_eq!(
        Scalar::from_limbs([u64::MAX, u64::MAX, u64::MAX, 0x73eda753299d7d47]),
        Some(Scalar { limbs: [u64::MAX, u64::MAX, u64::MAX, 0x73eda753299d7d47] })
    );
    assert_eq!(Scalar::from_limbs([0, 0x53bda402fffe5bff, 0x3339d80809a1d805, 0x73eda753299d7d48]), None);
    assert_eq!(
        Scalar::from_limbs([u64::MAX, 0x53bda402fffe5bfd, 0x3339d80809a1d805, 0x73eda753299d7d48]),
        Some(Scalar { limbs: [u64::MAX, 0x53bda402fffe5bfd, 0x3339d80809a1d805, 0x73eda753299d7d48] })
    );
}

#[test]
fn one_is_one() {
    assert_eq!(Scalar::one(), Scalar { limbs: [1, 0, 0, 0] });
    assert_eq!(arith_scalar_to_ark(&Scalar::one()), Fr::from(1u64));
}

#[test]
fn ladder_of_two_doubles() {
    let two = Scalar { limbs: [2, 0, 0, 0] };
    let ladder = exponent_ladder(&two, 70);
    assert_eq!(ladder.len(), 71);
    assert_eq!(ladder[0], Scalar { limbs: [1, 0, 0, 0] });
    assert_eq!(ladder[1], Scalar { limbs: [2, 0, 0, 0] });
    assert_eq!(ladder[10], Scalar { limbs: [1024, 0, 0, 0] });
    assert_eq!(ladder[63], Scalar { limbs: [1 << 63, 0, 0, 0] });
    assert_eq!(ladder[64], Scalar { limbs: [0, 1, 0, 0] });
    assert_eq!(ladder[70], Scalar { limbs: [0, 64, 0, 0] });
}

#[test]
fn ladder_of_minus_one_alternates() {
    let mut minus_one = MODULUS_LIMBS;
    minus_one[0] -= 1;
    let ladder = exponent_ladder(&Scalar { limbs: minus_one }, 5);
    assert_eq!(ladder.len(), 6);
    for (i, power) in ladder.iter().enumerate() {
        if i % 2 == 0 {
            assert_eq!(*power, Scalar::one());
        } else {
            assert_eq!(*power, Scalar { limbs: minus_one });
        }
    }
}

#[test]
fn ladder_of_zero_top_is_one_alone() {
    let seven = Scalar { limbs: [7, 0, 0, 0] };
    assert_eq!(exponent_ladder(&seven, 0), vec![Scalar::one()]);
}

#[test]
fn ladder_wraps_around_the_modulus() {
    let mut rng = StdRng::seed_from_u64(31);
    let beta = Fr::rand(&mut rng);
    let ladder = exponent_ladder(&Scalar { limbs: beta.into_bigint().0 }, 40);
    assert_eq!(ladder.len(), 41);
    for (i, power) in ladder.iter().enumerate() {
        assert_eq!(arith_scalar_to_ark(power), beta.pow([i as u64]));
    }
}

#[test]
fn g1_from_bytes_accepts_canonical_encodings_only() {
    let generator = arith_g1_from_ark(&G1Affine::generator());
    assert_eq!(G1Point::from_bytes(generator.bytes), Some(generator));

    let mut infinity = [0u8; 48];
    infinity[0] = 0xc0;
    assert_eq!(G1Point::from_bytes(infinity), Some(G1Point { bytes: infinity }));
    assert_eq!(arith_g1_from_ark(&G1Affine::identity()).bytes, infinity);

    // The point at infinity with stray bits decodes, but not to itself.
    let mut stray = infinity;
    stray[47] = 1;
    assert_eq!(G1Point::from_bytes(stray), None);

    // Without the compression flag nothing decodes.
    assert_eq!(G1Point::from_bytes([0u8; 48]), None);
    // A coordinate beyond the base field's order.
    let mut large = [0xffu8; 48];
    large[0] = 0x9f;
    assert_eq!(G1Point::from_bytes(large), None);
    // The other root for the same abscissa is another valid point.
    let mut negated = generator.bytes;
    negated[0] ^= 0x20;
    assert_eq!(G1Point::from_bytes(negated), Some(G1Point { bytes: negated }));
    assert_eq!(arith_g1_from_ark(&(-G1Affine::generator())).bytes, negated);
}

#[test]
fn g2_from_bytes_accepts_canonical_encodings_only() {
    let mut bytes = [0u8; 96];
    G2Affine::generator().serialize_compressed(&mut bytes[..]).unwrap();
    assert_eq!(G2Point::from_bytes(bytes), Some(G2Point { bytes }));

    let mut infinity = [0u8; 96];
    infinity[0] = 0xc0;
    assert_eq!(G2Point::from_bytes(infinity), Some(G2Point { bytes: infinity }));
    let mut stray = infinity;
    stray[95] = 1;
    assert_eq!(G2Point::from_bytes(stray), None);
    assert_eq!(G2Point::from_bytes([0u8; 96]), None);
    assert_eq!(G2Point::from_bytes([0xffu8; 96]), None);
}

#[test]
fn fixed_base_powers_multiply_the_base_by_each_scalar() {
    let mut rng = StdRng::seed_from_u64(32);
    let base = G1Projective::rand(&mut rng).into_affine();
    let factors: Vec<Fr> = (0..40).map(|_| Fr::rand(&mut rng)).collect();
    let scalars: Vec<Scalar> = factors.iter().map(|f| Scalar { limbs: f.into_bigint().0 }).collect();
    let products = fixed_base_powers(&arith_g1_from_ark(&base), &scalars);
    assert_eq!(products.len(), 40);
    for i in 0..40 {
        assert_eq!(products[i], arith_g1_from_ark(&(base * factors[i]).into_affine()));
    }
}

#[test]
fn fixed_base_powers_of_small_scalars() {
    let base = G1Affine::generator();
    let scalars = vec![
        Scalar { limbs: [0, 0, 0, 0] },
        Scalar { limbs: [1, 0, 0, 0] },
        Scalar { limbs: [2, 0, 0, 0] },
    ];
    let products = fixed_base_powers(&arith_g1_from_ark(&base), &scalars);
    assert_eq!(products[0], arith_g1_from_ark(&G1Affine::identity()));
    assert_eq!(products[1], arith_g1_from_ark(&base));
    assert_eq!(products[2], arith_g1_from_ark(&(base + base).into_affine()));
    assert_eq!(fixed_base_powers(&arith_g1_from_ark(&base), &Vec::new()), Vec::new());
}

fn arith_ceil_log2(n: usize) -> usize {
    if n <= 1 {
        0
    } else {
        1 + arith_ceil_log2(n / 2 + n % 2)
    }
}

#[test]
fn window_width_is_three_or_the_scaled_logarithm() {
    let counts = [
        0usize, 1, 2, 17, 31, 32, 33, 63, 64, 65, 127, 128, 129, 1000, 1024, 1025, 65537,
        1 << 20, (1 << 20) + 1, (1 << 32) + 1, usize::MAX,
    ];
    for count in counts {
        let expected = if count < 32 { 3 } else { arith_ceil_log2(count) * 69 / 100 };
        assert_eq!(FixedBase::get_mul_window_size(count), expected);
    }
    assert_eq!(FixedBase::get_mul_window_size(32), 3);
    assert_eq!(FixedBase::get_mul_window_size(65), 4);
    assert_eq!(FixedBase::get_mul_window_size(1025), 7);
}
