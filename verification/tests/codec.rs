use ark_bls12_381::{G1Affine, G2Affine};
use ark_serialize::{CanonicalDeserialize, CanonicalSerialize};
use ark_std::rand::rngs::StdRng;
use ark_std::rand::SeedableRng;
use mercury_srs::{
    MercuryProverParam, MercuryUniversalParams, MercuryVerifierParam, SrsError,
};

fn codec_params(seed: u64, bound: usize) -> MercuryUniversalParams {
    let mut rng = StdRng::seed_from_u64(seed);
    MercuryUniversalParams::gen_srs_for_testing(&mut rng, bound).unwrap()
}

#[test]
fn universal_parameters_round_trip() {
    let pp = codec_params(41, 3);
    let bytes = pp.to_bytes();
    assert_eq!(bytes.len(), 8 + 17 * 48 + 96 + 96);
    assert_eq!(MercuryUniversalParams::from_bytes(&bytes), Ok(pp));
}

#[test]
fn prover_parameters_round_trip() {
    let pp = codec_params(42, 2);
    let pk = pp.extract_prover_param(3);
    let bytes = pk.to_bytes();
    assert_eq!(bytes.len(), 8 + 4 * 48);
    assert_eq!(bytes[..8], [4, 0, 0, 0, 0, 0, 0, 0]);
    assert_eq!(bytes[8..56], pk.powers_of_g[0].bytes);
    assert_eq!(bytes[152..200], pk.powers_of_g[3].bytes);
    assert_eq!(MercuryProverParam::from_bytes(&bytes), Ok(pk));
}

#[test]
fn verifier_parameters_round_trip() {
    let pp = codec_params(43, 2);
    let vk = pp.extract_verifier_param(1);
    let bytes = vk.to_bytes();
    assert_eq!(bytes.len(), 240);
    assert_eq!(bytes[..48], vk.g.bytes);
    assert_eq!(bytes[48..144], vk.h.bytes);
    assert_eq!(bytes[144..], vk.beta_h.bytes);
    assert_eq!(MercuryVerifierParam::from_bytes(&bytes), Ok(vk));
}

#[test]
fn byte_form_is_that_of_the_curve_library() {
    let pp = codec_params(44, 2);
    let powers: Vec<G1Affine> = pp
        .powers_of_g
        .iter()
        .map(|p| G1Affine::deserialize_compressed(&p.bytes[..]).unwrap())
        .collect();
    let h = G2Affine::deserialize_compressed(&pp.h.bytes[..]).unwrap();
    let beta_h = G2Affine::deserialize_compressed(&pp.beta_h.bytes[..]).unwrap();
    let mut expected = Vec::new();
    powers.serialize_compressed(&mut expected).unwrap();
    h.serialize_compressed(&mut expected).unwrap();
    beta_h.serialize_compressed(&mut expected).unwrap();
    assert_eq!(pp.to_bytes(), expected);

    let read = Vec::<G1Affine>::deserialize_compressed(&pp.to_bytes()[..]).unwrap();
    assert_eq!(read, powers);
}

#[test]
fn truncated_bytes_are_refused() {
    let pp = codec_params(45, 2);
    let bytes = pp.to_bytes();
    for cut in [0usize, 1, 7, 8, 56, 199, 200, bytes.len() - 96, bytes.len() - 1] {
        assert_eq!(MercuryUniversalParams::from_bytes(&bytes[..cut]), Err(SrsError::Decode));
    }
    let pk = pp.extract_prover_param(2).to_bytes();
    for cut in [0usize, 7, 8, 55, pk.len() - 48, pk.len() - 1] {
        assert_eq!(MercuryProverParam::from_bytes(&pk[..cut]), Err(SrsError::Decode));
    }
    let vk = pp.extract_verifier_param(2).to_bytes();
    for cut in [0usize, 48, 144, 239] {
        assert_eq!(MercuryVerifierParam::from_bytes(&vk[..cut]), Err(SrsError::Decode));
    }
}

#[test]
fn trailing_bytes_are_refused() {
    let pp = codec_params(46, 2);
    let mut bytes = pp.to_bytes();
    bytes.push(0);
    assert_eq!(MercuryUniversalParams::from_bytes(&bytes), Err(SrsError::Decode));
    bytes.extend_from_slice(&[0u8; 47]);
    assert_eq!(MercuryUniversalParams::from_bytes(&bytes), Err(SrsError::Decode));
    let mut vk = pp.extract_verifier_param(0).to_bytes();
    vk.push(0);
    assert_eq!(MercuryVerifierParam::from_bytes(&vk), Err(SrsError::Decode));
}

#[test]
fn wrong_length_prefix_is_refused() {
    let pp = codec_params(47, 2);
    let mut bytes = pp.to_bytes();
    assert_eq!(bytes[0], 5);
    bytes[0] = 4;
    assert_eq!(MercuryUniversalParams::from_bytes(&bytes), Err(SrsError::Decode));
    bytes[0] = 5;
    bytes[7] = 1;
    assert_eq!(MercuryUniversalParams::from_bytes(&bytes), Err(SrsError::Decode));
    let mut pk = pp.extract_prover_param(1).to_bytes();
    pk[0] = 3;
    assert_eq!(MercuryProverParam::from_bytes(&pk), Err(SrsError::Decode));
}

#[test]
fn empty_sequence_of_powers_is_refused() {
    assert_eq!(MercuryProverParam::from_bytes(&[0u8; 8]), Err(SrsError::Decode));
    let mut bytes = vec![0u8; 8];
    let pp = codec_params(48, 0);
    bytes.extend_from_slice(&pp.h.bytes);
    bytes.extend_from_slice(&pp.beta_h.bytes);
    assert_eq!(MercuryUniversalParams::from_bytes(&bytes), Err(SrsError::Decode));
}

#[test]
fn bytes_that_are_no_point_are_refused() {
    let pp = codec_params(49, 2);
    let good = pp.to_bytes();

    let mut bad_power = good.clone();
    for b in bad_power[56..104].iter_mut() {
        *b = 0;
    }
    assert_eq!(MercuryUniversalParams::from_bytes(&bad_power), Err(SrsError::Decode));

    let mut bad_h = good.clone();
    let at = 8 + 5 * 48;
    bad_h[at] &= 0x7f;
    assert_eq!(MercuryUniversalParams::from_bytes(&bad_h), Err(SrsError::Decode));

    let mut bad_beta_h = good.clone();
    let at = 8 + 5 * 48 + 96;
    for b in bad_beta_h[at..at + 96].iter_mut() {
        *b = 0xff;
    }
    assert_eq!(MercuryUniversalParams::from_bytes(&bad_beta_h), Err(SrsError::Decode));

    let mut bad_g = pp.extract_verifier_param(0).to_bytes();
    bad_g[0] = 0xc0;
    assert_eq!(MercuryVerifierParam::from_bytes(&bad_g), Err(SrsError::Decode));

    let mut bad_pk = pp.extract_prover_param(1).to_bytes();
    bad_pk[8 + 48] = 0;
    assert_eq!(MercuryProverParam::from_bytes(&bad_pk), Err(SrsError::Decode));
}

#[test]
fn equal_parameters_have_equal_bytes() {
    let a = codec_params(50, 2);
    let b = codec_params(50, 2);
    let c = codec_params(51, 2);
    assert_eq!(a.to_bytes(), b.to_bytes());
    assert_ne!(a.to_bytes(), c.to_bytes());
}
