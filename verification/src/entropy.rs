//! Sampling of the secret scalar and of the two generators from a seeded
//! random number generator.

use ark_bls12_381::{Fr, G1Projective, G2Projective};
use ark_ff::PrimeField;
use ark_serialize::CanonicalSerialize;
use ark_std::rand::rngs::StdRng;
use ark_std::UniformRand;
use crate::group::{G1Point, G2Point};
use crate::scalar::Scalar;
use vstd::prelude::*;

verus! {

/// The generator that the setup draws from; nothing of its state is known
/// to the proofs.
#[verifier::external_type_specification]
#[verifier::external_body]
pub struct ExStdRng(ark_std::rand::rngs::StdRng);

/// Trusted: `Fr::rand`, which draws until the value is below the field
/// order. Nothing more is claimed of the outcome.
#[verifier::external_body]
pub(crate) fn sample_scalar(rng: &mut StdRng) -> (out: Scalar)
    ensures
        out.wf(),
{
    Scalar { limbs: Fr::rand(rng).into_bigint().0 }
}

/// Trusted: `G1Projective::rand`, which returns an element of the
/// prime-order subgroup. Nothing more is claimed of the outcome.
#[verifier::external_body]
pub(crate) fn sample_g1(rng: &mut StdRng) -> (out: G1Point)
    ensures
        out.valid(),
{
    let mut bytes = [0u8; 48];
    G1Projective::rand(rng).serialize_compressed(&mut bytes[..]).unwrap();
    G1Point { bytes }
}

/// Trusted: `G2Projective::rand`, which returns an element of the
/// prime-order subgroup. Nothing more is claimed of the outcome.
#[verifier::external_body]
pub(crate) fn sample_g2(rng: &mut StdRng) -> (out: G2Point)
    ensures
        out.valid(),
{
    let mut bytes = [0u8; 96];
    G2Projective::rand(rng).serialize_compressed(&mut bytes[..]).unwrap();
    G2Point { bytes }
}

} // verus!
