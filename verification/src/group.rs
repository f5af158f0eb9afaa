//! Points of the two source groups of BLS12-381, held by their canonical
//! compressed encodings.

use ark_bls12_381::{Fr, G1Affine, G2Affine};
use ark_ec::CurveGroup;
use ark_ff::{BigInt, PrimeField};
use ark_serialize::{CanonicalDeserialize, CanonicalSerialize};
use crate::bytes::same_array;
use crate::scalar::Scalar;
use std::ops::Mul;
use vstd::prelude::*;

verus! {

/// A point of the first group, as its compressed encoding.
#[derive(Clone, Copy, PartialEq, Eq, Debug)]
pub struct G1Point {
    pub bytes: [u8; 48],
}

/// A point of the second group, as its compressed encoding.
#[derive(Clone, Copy, PartialEq, Eq, Debug)]
pub struct G2Point {
    pub bytes: [u8; 96],
}

/// A point of the first group in Jacobian coordinates, each coordinate an
/// integer in six little-endian limbs.
#[derive(Clone, Copy, PartialEq, Eq, Debug)]
pub struct G1Jacobian {
    pub x: [u64; 6],
    pub y: [u64; 6],
    pub z: [u64; 6],
}

/// The order `q` of the field over which the first group's curve is defined.
pub open spec fn base_modulus() -> nat {
    0x1a0111ea397fe69a4b1ba7b6434bacd764774b84f38512bf6730d2a0f6b0f6241eabfffeb153ffffb9feffffffffaaabnat
}

/// The integer that six little-endian 64-bit limbs stand for.
pub open spec fn coordinate_value(limbs: [u64; 6]) -> nat {
    (limbs[0] as nat) + (limbs[1] as nat) * 0x1_0000_0000_0000_0000nat + (limbs[2] as nat)
        * 0x1_0000_0000_0000_0000_0000_0000_0000_0000nat + (limbs[3] as nat)
        * 0x1_0000_0000_0000_0000_0000_0000_0000_0000_0000_0000_0000_0000nat + (limbs[4] as nat)
        * 0x1_0000_0000_0000_0000_0000_0000_0000_0000_0000_0000_0000_0000_0000_0000_0000_0000nat
        + (limbs[5] as nat)
        * 0x1_0000_0000_0000_0000_0000_0000_0000_0000_0000_0000_0000_0000_0000_0000_0000_0000_0000_0000_0000_0000nat
}

impl G1Jacobian {
    /// Each coordinate is reduced modulo the order of the base field.
    pub open spec fn wf(&self) -> bool {
        &&& coordinate_value(self.x) < base_modulus()
        &&& coordinate_value(self.y) < base_modulus()
        &&& coordinate_value(self.z) < base_modulus()
    }
}

/// What decoding 48 bytes as a compressed point of the first group and
/// encoding the point again gives; `None` where the bytes do not decode.
pub uninterp spec fn g1_recoded(bytes: [u8; 48]) -> Option<[u8; 48]>;

/// What decoding 96 bytes as a compressed point of the second group and
/// encoding the point again gives; `None` where the bytes do not decode.
pub uninterp spec fn g2_recoded(bytes: [u8; 96]) -> Option<[u8; 96]>;

/// The product of a point of the second group and a scalar.
pub uninterp spec fn g2_scalar_mul(point: G2Point, scalar: nat) -> G2Point;

impl G1Point {
    /// A point is valid when its bytes are the canonical encoding of an
    /// element of the prime-order subgroup.
    pub open spec fn valid(&self) -> bool {
        g1_recoded(self.bytes) == Some(self.bytes)
    }

    /// Accepts exactly the canonical encodings.
    pub fn from_bytes(bytes: [u8; 48]) -> (res: Option<G1Point>)
        ensures
            res == if g1_recoded(bytes) == Some(bytes) {
                Some(G1Point { bytes })
            } else {
                None
            },
    {
        match g1_recode(&bytes) {
            Some(canonical) => {
                if same_array(&canonical, &bytes) {
                    Some(G1Point { bytes })
                } else {
                    None
                }
            },
            None => None,
        }
    }
}

impl G2Point {
    /// A point is valid when its bytes are the canonical encoding of an
    /// element of the prime-order subgroup.
    pub open spec fn valid(&self) -> bool {
        g2_recoded(self.bytes) == Some(self.bytes)
    }

    /// Accepts exactly the canonical encodings.
    pub fn from_bytes(bytes: [u8; 96]) -> (res: Option<G2Point>)
        ensures
            res == if g2_recoded(bytes) == Some(bytes) {
                Some(G2Point { bytes })
            } else {
                None
            },
    {
        match g2_recode(&bytes) {
            Some(canonical) => {
                if same_array(&canonical, &bytes) {
                    Some(G2Point { bytes })
                } else {
                    None
                }
            },
            None => None,
        }
    }
}

/// Trusted: `G1Affine::deserialize_compressed` followed, where it succeeds,
/// by `serialize_compressed` of the point it returned. The result is a
/// function of the bytes alone, which `g1_recoded` names.
#[verifier::external_body]
fn g1_recode(bytes: &[u8; 48]) -> (out: Option<[u8; 48]>)
    ensures
        out == g1_recoded(*bytes),
{
    match G1Affine::deserialize_compressed(&bytes[..]) {
        Ok(point) => {
            let mut canonical = [0u8; 48];
            point.serialize_compressed(&mut canonical[..]).unwrap();
            Some(canonical)
        },
        Err(_) => None,
    }
}

/// Trusted: `G2Affine::deserialize_compressed` followed, where it succeeds,
/// by `serialize_compressed` of the point it returned. The result is a
/// function of the bytes alone, which `g2_recoded` names.
#[verifier::external_body]
fn g2_recode(bytes: &[u8; 96]) -> (out: Option<[u8; 96]>)
    ensures
        out == g2_recoded(*bytes),
{
    match G2Affine::deserialize_compressed(&bytes[..]) {
        Ok(point) => {
            let mut canonical = [0u8; 96];
            point.serialize_compressed(&mut canonical[..]).unwrap();
            Some(canonical)
        },
        Err(_) => None,
    }
}

/// Trusted: `Mul<Fr>` of `G2Affine`, then `into_affine`. The product is a
/// function of the point and the scalar alone, which `g2_scalar_mul` names;
/// being an element of the group, it encodes canonically.
#[verifier::external_body]
pub(crate) fn g2_mul(point: &G2Point, scalar: &Scalar) -> (out: G2Point)
    requires
        point.valid(),
        scalar.wf(),
    ensures
        out == g2_scalar_mul(*point, scalar@),
        out.valid(),
{
    let base = G2Affine::deserialize_compressed(&point.bytes[..]).unwrap();
    let factor = Fr::from_bigint(BigInt::new(scalar.limbs)).unwrap();
    let mut bytes = [0u8; 96];
    base.mul(factor).into_affine().serialize_compressed(&mut bytes[..]).unwrap();
    G2Point { bytes }
}

} // verus!
