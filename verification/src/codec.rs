//! Canonical byte form of the three kinds of parameters: a sequence of
//! points is its length in eight little-endian bytes followed by the points;
//! a single point is its compressed encoding.

use crate::bytes::{append_array, read_array};
use crate::error::SrsError;
use crate::group::{G1Point, G2Point};
use crate::srs::{MercuryProverParam, MercuryUniversalParams, MercuryVerifierParam, UniversalModel};
use vstd::bytes::{
    lemma_auto_spec_u64_to_from_le_bytes,
    spec_u64_to_le_bytes,
    u64_from_le_bytes,
    u64_to_le_bytes,
};
use vstd::prelude::*;
use vstd::slice::slice_subrange;

verus! {

/// The encodings of a sequence of points, one after the other.
pub open spec fn concat_g1(points: Seq<G1Point>) -> Seq<u8> {
    Seq::new(points.len() * 48, |i: int| points[i / 48].bytes[i % 48])
}

/// The byte form of a sequence of points.
pub open spec fn powers_encoding(points: Seq<G1Point>) -> Seq<u8> {
    spec_u64_to_le_bytes(points.len() as u64) + concat_g1(points)
}

/// The byte form of universal parameters.
pub open spec fn universal_encoding(params: UniversalModel) -> Seq<u8> {
    powers_encoding(params.powers_of_g) + params.h.bytes@ + params.beta_h.bytes@
}

/// The byte form of a verifier's parameters.
pub open spec fn verifier_encoding(vk: MercuryVerifierParam) -> Seq<u8> {
    vk.g.bytes@ + vk.h.bytes@ + vk.beta_h.bytes@
}

/// A sequence of powers that bytes may stand for: not empty, every point valid.
pub open spec fn powers_ok(points: Seq<G1Point>) -> bool {
    &&& points.len() >= 1
    &&& forall|i: int| 0 <= i < points.len() ==> (#[trigger] points[i]).valid()
}

/// A verifier's parameters that bytes may stand for: every point valid.
pub open spec fn verifier_ok(vk: MercuryVerifierParam) -> bool {
    &&& vk.g.valid()
    &&& vk.h.valid()
    &&& vk.beta_h.valid()
}

/// What bytes decode to as a prover's powers.
pub open spec fn decode_powers(bytes: Seq<u8>) -> Result<Seq<G1Point>, SrsError> {
    if exists|p: Seq<G1Point>| powers_ok(p) && #[trigger] powers_encoding(p) == bytes {
        Ok(choose|p: Seq<G1Point>| powers_ok(p) && #[trigger] powers_encoding(p) == bytes)
    } else {
        Err(SrsError::Decode)
    }
}

/// What bytes decode to as universal parameters.
pub open spec fn decode_universal(bytes: Seq<u8>) -> Result<UniversalModel, SrsError> {
    if exists|m: UniversalModel| m.wf() && m.valid() && #[trigger] universal_encoding(m) == bytes {
        Ok(
            choose|m: UniversalModel|
                m.wf() && m.valid() && #[trigger] universal_encoding(m) == bytes,
        )
    } else {
        Err(SrsError::Decode)
    }
}

/// What bytes decode to as a verifier's parameters.
pub open spec fn decode_verifier(bytes: Seq<u8>) -> Result<MercuryVerifierParam, SrsError> {
    if exists|vk: MercuryVerifierParam| verifier_ok(vk) && #[trigger] verifier_encoding(vk) == bytes {
        Ok(
            choose|vk: MercuryVerifierParam|
                verifier_ok(vk) && #[trigger] verifier_encoding(vk) == bytes,
        )
    } else {
        Err(SrsError::Decode)
    }
}

/// Where each part of the byte form of a sequence of points lies.
pub proof fn lemma_powers_encoding_parts(points: Seq<G1Point>)
    ensures
        powers_encoding(points).len() == 8 + 48 * points.len(),
        powers_encoding(points).subrange(0, 8) == spec_u64_to_le_bytes(points.len() as u64),
        forall|k: int|
            0 <= k < points.len() ==> #[trigger] powers_encoding(points).subrange(
                8 + 48 * k,
                8 + 48 * k + 48,
            ) == points[k].bytes@,
{
    lemma_auto_spec_u64_to_from_le_bytes();
    let enc = powers_encoding(points);
    assert(enc.subrange(0, 8) =~= spec_u64_to_le_bytes(points.len() as u64));
    assert forall|k: int| 0 <= k < points.len() implies #[trigger] enc.subrange(
        8 + 48 * k,
        8 + 48 * k + 48,
    ) == points[k].bytes@ by {
        let part = enc.subrange(8 + 48 * k, 8 + 48 * k + 48);
        assert forall|j: int| 0 <= j < 48 implies part[j] == points[k].bytes@[j] by {
            assert((48 * k + j) / 48 == k);
            assert((48 * k + j) % 48 == j);
            assert(part[j] == concat_g1(points)[48 * k + j]);
        }
        assert(part =~= points[k].bytes@);
    }
}

/// Number of bytes in the byte form of `count` points.
pub open spec fn powers_bytes(count: nat) -> int {
    8 + 48 * (count as int)
}

/// Where each part of the byte form of universal parameters lies.
pub proof fn lemma_universal_encoding_parts(params: UniversalModel)
    ensures
        universal_encoding(params).len() == powers_bytes(params.powers_of_g.len()) + 192,
        universal_encoding(params).subrange(0, powers_bytes(params.powers_of_g.len()))
            == powers_encoding(params.powers_of_g),
        universal_encoding(params).subrange(
            powers_bytes(params.powers_of_g.len()),
            powers_bytes(params.powers_of_g.len()) + 96,
        ) == params.h.bytes@,
        universal_encoding(params).subrange(
            powers_bytes(params.powers_of_g.len()) + 96,
            powers_bytes(params.powers_of_g.len()) + 192,
        ) == params.beta_h.bytes@,
        universal_encoding(params).subrange(0, 8) == spec_u64_to_le_bytes(
            params.powers_of_g.len() as u64,
        ),
        forall|k: int|
            0 <= k < params.powers_of_g.len() ==> #[trigger] universal_encoding(params).subrange(
                8 + 48 * k,
                8 + 48 * k + 48,
            ) == params.powers_of_g[k].bytes@,
{
    lemma_powers_encoding_parts(params.powers_of_g);
    let enc = universal_encoding(params);
    let inner = powers_encoding(params.powers_of_g);
    let n = params.powers_of_g.len() as int;
    assert(enc.subrange(0, 8 + 48 * n) =~= inner);
    assert(enc.subrange(8 + 48 * n, 8 + 48 * n + 96) =~= params.h.bytes@);
    assert(enc.subrange(8 + 48 * n + 96, 8 + 48 * n + 192) =~= params.beta_h.bytes@);
    assert(enc.subrange(0, 8) =~= inner.subrange(0, 8));
    assert forall|k: int| 0 <= k < n implies #[trigger] enc.subrange(8 + 48 * k, 8 + 48 * k + 48)
        == params.powers_of_g[k].bytes@ by {
        assert(enc.subrange(8 + 48 * k, 8 + 48 * k + 48) =~= inner.subrange(
            8 + 48 * k,
            8 + 48 * k + 48,
        ));
    }
}

/// Where each part of the byte form of a verifier's parameters lies.
pub proof fn lemma_verifier_encoding_parts(vk: MercuryVerifierParam)
    ensures
        verifier_encoding(vk).len() == 240,
        verifier_encoding(vk).subrange(0, 48) == vk.g.bytes@,
        verifier_encoding(vk).subrange(48, 144) == vk.h.bytes@,
        verifier_encoding(vk).subrange(144, 240) == vk.beta_h.bytes@,
{
    let enc = verifier_encoding(vk);
    assert(enc.subrange(0, 48) =~= vk.g.bytes@);
    assert(enc.subrange(48, 144) =~= vk.h.bytes@);
    assert(enc.subrange(144, 240) =~= vk.beta_h.bytes@);
}

/// Two sequences of points with the same byte form are the same.
pub proof fn lemma_powers_encoding_injective(a: Seq<G1Point>, b: Seq<G1Point>)
    requires
        powers_encoding(a) == powers_encoding(b),
    ensures
        a == b,
{
    lemma_powers_encoding_parts(a);
    lemma_powers_encoding_parts(b);
    assert(a.len() == b.len());
    assert forall|k: int| 0 <= k < a.len() implies a[k] == b[k] by {
        let part = powers_encoding(a).subrange(8 + 48 * k, 8 + 48 * k + 48);
        assert(part == a[k].bytes@);
        assert(part == b[k].bytes@);
        assert(a[k].bytes =~= b[k].bytes);
    }
    assert(a =~= b);
}

/// Two universal parameters with the same byte form are the same.
pub proof fn lemma_universal_encoding_injective(a: UniversalModel, b: UniversalModel)
    requires
        universal_encoding(a) == universal_encoding(b),
    ensures
        a == b,
{
    lemma_universal_encoding_parts(a);
    lemma_universal_encoding_parts(b);
    assert(a.powers_of_g.len() == b.powers_of_g.len());
    lemma_powers_encoding_injective(a.powers_of_g, b.powers_of_g);
    assert(a.h.bytes =~= b.h.bytes);
    assert(a.beta_h.bytes =~= b.beta_h.bytes);
}

/// Two verifier's parameters with the same byte form are the same.
pub proof fn lemma_verifier_encoding_injective(a: MercuryVerifierParam, b: MercuryVerifierParam)
    requires
        verifier_encoding(a) == verifier_encoding(b),
    ensures
        a == b,
{
    lemma_verifier_encoding_parts(a);
    lemma_verifier_encoding_parts(b);
    assert(a.g.bytes =~= b.g.bytes);
    assert(a.h.bytes =~= b.h.bytes);
    assert(a.beta_h.bytes =~= b.beta_h.bytes);
}

/// What bytes decode to has those bytes as its byte form, and is in order.
pub proof fn lemma_decoded_encodes_back(bytes: Seq<u8>)
    ensures
        decode_powers(bytes) matches Ok(p) ==> powers_ok(p) && powers_encoding(p) == bytes,
        decode_universal(bytes) matches Ok(m) ==> m.wf() && m.valid() && universal_encoding(m)
            == bytes,
        decode_verifier(bytes) matches Ok(vk) ==> verifier_ok(vk) && verifier_encoding(vk)
            == bytes,
{
}

/// Decoding the byte form of a prover's powers gives them back.
pub proof fn lemma_powers_round_trip(points: Seq<G1Point>)
    requires
        powers_ok(points),
    ensures
        decode_powers(powers_encoding(points)) == Ok::<_, SrsError>(points),
{
    let bytes = powers_encoding(points);
    let found = choose|p: Seq<G1Point>| powers_ok(p) && #[trigger] powers_encoding(p) == bytes;
    lemma_powers_encoding_injective(found, points);
}

/// Decoding the byte form of universal parameters gives them back.
pub proof fn lemma_universal_round_trip(params: UniversalModel)
    requires
        params.wf(),
        params.valid(),
    ensures
        decode_universal(universal_encoding(params)) == Ok::<_, SrsError>(params),
{
    let bytes = universal_encoding(params);
    let found = choose|m: UniversalModel|
        m.wf() && m.valid() && #[trigger] universal_encoding(m) == bytes;
    lemma_universal_encoding_injective(found, params);
}

/// Decoding the byte form of a verifier's parameters gives them back.
pub proof fn lemma_verifier_round_trip(vk: MercuryVerifierParam)
    requires
        verifier_ok(vk),
    ensures
        decode_verifier(verifier_encoding(vk)) == Ok::<_, SrsError>(vk),
{
    let bytes = verifier_encoding(vk);
    let found = choose|v: MercuryVerifierParam|
        verifier_ok(v) && #[trigger] verifier_encoding(v) == bytes;
    lemma_verifier_encoding_injective(found, vk);
}

/// Appends the byte form of a sequence of points.
fn append_powers(out: &mut Vec<u8>, points: &Vec<G1Point>)
    ensures
        final(out)@ == old(out)@ + powers_encoding(points@),
{
    let mut prefix = u64_to_le_bytes(points.len() as u64);
    out.append(&mut prefix);
    let ghost head = out@;
    let mut i: usize = 0;
    while i < points.len()
        invariant
            i <= points@.len(),
            out@ == head + concat_g1(points@.take(i as int)),
        decreases points@.len() - i,
    {
        append_array(out, &points[i].bytes);
        proof {
            let before = points@.take(i as int);
            let after = points@.take(i + 1);
            assert(concat_g1(after) =~= concat_g1(before) + points@[i as int].bytes@) by {
                assert forall|t: int| 0 <= t < 48 * (i + 1) implies concat_g1(after)[t] == (
                concat_g1(before) + points@[i as int].bytes@)[t] by {
                    if t >= 48 * i {
                        assert(t / 48 == i);
                    } else {
                        assert(t / 48 < i);
                    }
                }
            }
        }
        i += 1;
    }
    assert(points@.take(points@.len() as int) =~= points@);
    assert(out@ =~= old(out)@ + powers_encoding(points@));
}

/// No valid point has the `k`-th 48 bytes after the length as its encoding.
pub open spec fn no_point_at(bytes: Seq<u8>, k: int) -> bool {
    forall|p: G1Point|
        #[trigger] p.bytes@ == bytes.subrange(8 + 48 * k, 8 + 48 * k + 48) ==> !p.valid()
}

/// Reads `count` points that lie one after the other from byte 8 on;
/// `None` where one of them is not a canonical encoding.
fn parse_points(bytes: &[u8], count: usize) -> (res: Option<Vec<G1Point>>)
    requires
        8 + 48 * count <= bytes@.len(),
    ensures
        match res {
            Some(points) => {
                &&& points@.len() == count
                &&& forall|k: int|
                    0 <= k < count ==> {
                        &&& (#[trigger] points@[k]).valid()
                        &&& points@[k].bytes@ == bytes@.subrange(8 + 48 * k, 8 + 48 * k + 48)
                    }
            },
            None => exists|k: int| 0 <= k < count && #[trigger] no_point_at(bytes@, k),
        },
{
    let total = bytes.len();
    let mut points: Vec<G1Point> = Vec::new();
    let mut i: usize = 0;
    while i < count
        invariant
            i <= count,
            total == bytes@.len(),
            8 + 48 * count <= total,
            points@.len() == i,
            forall|k: int|
                0 <= k < i ==> {
                    &&& (#[trigger] points@[k]).valid()
                    &&& points@[k].bytes@ == bytes@.subrange(8 + 48 * k, 8 + 48 * k + 48)
                },
        decreases count - i,
    {
        let chunk = read_array::<48>(bytes, 8 + 48 * i);
        match G1Point::from_bytes(chunk) {
            Some(point) => {
                points.push(point);
            },
            None => {
                proof {
                    let k = i as int;
                    assert forall|p: G1Point|
                        #[trigger] p.bytes@ == bytes@.subrange(
                            8 + 48 * k,
                            8 + 48 * k + 48,
                        ) implies !p.valid() by {
                        assert(p.bytes =~= chunk);
                    }
                    assert(no_point_at(bytes@, k));
                }
                return None;
            },
        }
        i += 1;
    }
    Some(points)
}

impl MercuryProverParam {
    /// The canonical byte form.
    pub fn to_bytes(&self) -> (bytes: Vec<u8>)
        ensures
            bytes@ == powers_encoding(self@),
    {
        let mut out: Vec<u8> = Vec::new();
        append_powers(&mut out, &self.powers_of_g);
        assert(out@ =~= powers_encoding(self@));
        out
    }

    /// Reads the canonical byte form; refuses bytes that are not the byte
    /// form of at least one valid point.
    pub fn from_bytes(bytes: &[u8]) -> (res: Result<MercuryProverParam, SrsError>)
        ensures
            match res {
                Ok(pk) => decode_powers(bytes@) == Ok::<_, SrsError>(pk@),
                Err(e) => decode_powers(bytes@) == Err::<Seq<G1Point>, _>(e),
            },
    {
        let total = bytes.len();
        proof {
            lemma_auto_spec_u64_to_from_le_bytes();
            assert forall|p: Seq<G1Point>| powers_ok(p) && #[trigger] powers_encoding(p)
                == bytes@ implies total == 8 + 48 * p.len() && p.len() >= 1 && bytes@.subrange(
                0,
                8,
            ) == spec_u64_to_le_bytes(p.len() as u64) by {
                lemma_powers_encoding_parts(p);
            }
        }
        if total < 8 || (total - 8) % 48 != 0 {
            return Err(SrsError::Decode);
        }
        let count = (total - 8) / 48;
        if count == 0 {
            return Err(SrsError::Decode);
        }
        let declared = u64_from_le_bytes(slice_subrange(bytes, 0, 8));
        if declared != count as u64 {
            return Err(SrsError::Decode);
        }
        match parse_points(bytes, count) {
            Some(points) => {
                let pk = MercuryProverParam { powers_of_g: points };
                proof {
                    lemma_powers_encoding_parts(pk@);
                    assert(powers_encoding(pk@) =~= bytes@) by {
                        lemma_same_powers_bytes(pk@, bytes@);
                    }
                    lemma_powers_round_trip(pk@);
                }
                Ok(pk)
            },
            None => {
                proof {
                    assert forall|p: Seq<G1Point>| powers_ok(p) && #[trigger] powers_encoding(p)
                        == bytes@ implies false by {
                        lemma_powers_encoding_parts(p);
                        let k = choose|k: int| 0 <= k < count && #[trigger] no_point_at(bytes@, k);
                        assert(p[k].bytes@ == powers_encoding(p).subrange(
                            8 + 48 * k,
                            8 + 48 * k + 48,
                        ));
                        assert(p[k].valid());
                    }
                }
                Err(SrsError::Decode)
            },
        }
    }
}

impl MercuryUniversalParams {
    /// The canonical byte form.
    pub fn to_bytes(&self) -> (bytes: Vec<u8>)
        ensures
            bytes@ == universal_encoding(self@),
    {
        let mut out: Vec<u8> = Vec::new();
        append_powers(&mut out, &self.powers_of_g);
        append_array(&mut out, &self.h.bytes);
        append_array(&mut out, &self.beta_h.bytes);
        assert(out@ =~= universal_encoding(self@));
        out
    }

    /// Reads the canonical byte form; refuses bytes that are not the byte
    /// form of parameters with at least one power and valid points.
    pub fn from_bytes(bytes: &[u8]) -> (res: Result<MercuryUniversalParams, SrsError>)
        ensures
            match res {
                Ok(pp) => decode_universal(bytes@) == Ok::<_, SrsError>(pp@),
                Err(e) => decode_universal(bytes@) == Err::<UniversalModel, _>(e),
            },
    {
        let total = bytes.len();
        proof {
            lemma_auto_spec_u64_to_from_le_bytes();
            assert forall|m: UniversalModel|
                m.wf() && m.valid() && #[trigger] universal_encoding(m) == bytes@ implies total
                == 200 + 48 * m.powers_of_g.len() && bytes@.subrange(0, 8)
                == spec_u64_to_le_bytes(m.powers_of_g.len() as u64) by {
                lemma_universal_encoding_parts(m);
            }
        }
        if total < 200 || (total - 200) % 48 != 0 {
            return Err(SrsError::Decode);
        }
        let count = (total - 200) / 48;
        if count == 0 {
            return Err(SrsError::Decode);
        }
        let declared = u64_from_le_bytes(slice_subrange(bytes, 0, 8));
        if declared != count as u64 {
            return Err(SrsError::Decode);
        }
        let powers_of_g = match parse_points(bytes, count) {
            Some(points) => points,
            None => {
                proof {
                    assert forall|m: UniversalModel|
                        m.wf() && m.valid() && #[trigger] universal_encoding(m)
                            == bytes@ implies false by {
                        lemma_universal_encoding_parts(m);
                        let k = choose|k: int| 0 <= k < count && #[trigger] no_point_at(bytes@, k);
                        assert(m.powers_of_g[k].bytes@ == universal_encoding(m).subrange(
                            8 + 48 * k,
                            8 + 48 * k + 48,
                        ));
                        assert(m.powers_of_g[k].valid());
                    }
                }
                return Err(SrsError::Decode);
            },
        };
        let h_bytes = read_array::<96>(bytes, 8 + 48 * count);
        let h = match G2Point::from_bytes(h_bytes) {
            Some(point) => point,
            None => {
                proof {
                    assert forall|m: UniversalModel|
                        m.wf() && m.valid() && #[trigger] universal_encoding(m)
                            == bytes@ implies false by {
                        lemma_universal_encoding_parts(m);
                        assert(m.h.bytes =~= h_bytes);
                    }
                }
                return Err(SrsError::Decode);
            },
        };
        let beta_h_bytes = read_array::<96>(bytes, 8 + 48 * count + 96);
        let beta_h = match G2Point::from_bytes(beta_h_bytes) {
            Some(point) => point,
            None => {
                proof {
                    assert forall|m: UniversalModel|
                        m.wf() && m.valid() && #[trigger] universal_encoding(m)
                            == bytes@ implies false by {
                        lemma_universal_encoding_parts(m);
                        assert(m.beta_h.bytes =~= beta_h_bytes);
                    }
                }
                return Err(SrsError::Decode);
            },
        };
        let pp = MercuryUniversalParams { powers_of_g, h, beta_h };
        proof {
            let head = bytes@.subrange(0, 8 + 48 * count);
            assert(head.subrange(0, 8) =~= bytes@.subrange(0, 8));
            assert forall|k: int| 0 <= k < count implies (#[trigger] pp@.powers_of_g[k]).bytes@
                == head.subrange(8 + 48 * k, 8 + 48 * k + 48) by {
                assert(head.subrange(8 + 48 * k, 8 + 48 * k + 48) =~= bytes@.subrange(
                    8 + 48 * k,
                    8 + 48 * k + 48,
                ));
            }
            lemma_same_powers_bytes(pp@.powers_of_g, head);
            assert(universal_encoding(pp@) =~= bytes@);
            lemma_universal_round_trip(pp@);
        }
        Ok(pp)
    }
}

impl MercuryVerifierParam {
    /// The canonical byte form: the three points one after the other.
    pub fn to_bytes(&self) -> (bytes: Vec<u8>)
        ensures
            bytes@ == verifier_encoding(*self),
    {
        let mut out: Vec<u8> = Vec::new();
        append_array(&mut out, &self.g.bytes);
        append_array(&mut out, &self.h.bytes);
        append_array(&mut out, &self.beta_h.bytes);
        assert(out@ =~= verifier_encoding(*self));
        out
    }

    /// Reads the canonical byte form; refuses bytes that are not the byte
    /// form of three valid points.
    pub fn from_bytes(bytes: &[u8]) -> (res: Result<MercuryVerifierParam, SrsError>)
        ensures
            match res {
                Ok(vk) => decode_verifier(bytes@) == Ok::<_, SrsError>(vk),
                Err(e) => decode_verifier(bytes@) == Err::<MercuryVerifierParam, _>(e),
            },
    {
        proof {
            assert forall|v: MercuryVerifierParam|
                verifier_ok(v) && #[trigger] verifier_encoding(v) == bytes@ implies bytes@.len()
                == 240 && v.g.bytes@ == bytes@.subrange(0, 48) && v.h.bytes@ == bytes@.subrange(
                48,
                144,
            ) && v.beta_h.bytes@ == bytes@.subrange(144, 240) by {
                lemma_verifier_encoding_parts(v);
            }
        }
        if bytes.len() != 240 {
            return Err(SrsError::Decode);
        }
        let g_bytes = read_array::<48>(bytes, 0);
        let h_bytes = read_array::<96>(bytes, 48);
        let beta_h_bytes = read_array::<96>(bytes, 144);
        proof {
            assert forall|v: MercuryVerifierParam|
                verifier_ok(v) && #[trigger] verifier_encoding(v) == bytes@ implies v.g.bytes
                == g_bytes && v.h.bytes == h_bytes && v.beta_h.bytes == beta_h_bytes by {
                assert(v.g.bytes =~= g_bytes);
                assert(v.h.bytes =~= h_bytes);
                assert(v.beta_h.bytes =~= beta_h_bytes);
            }
        }
        let g = match G1Point::from_bytes(g_bytes) {
            Some(point) => point,
            None => {
                return Err(SrsError::Decode);
            },
        };
        let h = match G2Point::from_bytes(h_bytes) {
            Some(point) => point,
            None => {
                return Err(SrsError::Decode);
            },
        };
        let beta_h = match G2Point::from_bytes(beta_h_bytes) {
            Some(point) => point,
            None => {
                return Err(SrsError::Decode);
            },
        };
        let vk = MercuryVerifierParam { g, h, beta_h };
        proof {
            assert(verifier_encoding(vk) =~= bytes@);
            lemma_verifier_round_trip(vk);
        }
        Ok(vk)
    }
}

/// Bytes whose parts are those of a sequence of points are its byte form.
proof fn lemma_same_powers_bytes(points: Seq<G1Point>, bytes: Seq<u8>)
    requires
        bytes.len() == 8 + 48 * points.len(),
        bytes.subrange(0, 8) == spec_u64_to_le_bytes(points.len() as u64),
        forall|k: int|
            0 <= k < points.len() ==> (#[trigger] points[k]).bytes@ == bytes.subrange(
                8 + 48 * k,
                8 + 48 * k + 48,
            ),
    ensures
        powers_encoding(points) == bytes,
{
    lemma_auto_spec_u64_to_from_le_bytes();
    let enc = powers_encoding(points);
    assert forall|t: int| 0 <= t < enc.len() implies enc[t] == bytes[t] by {
        if t < 8 {
            assert(bytes.subrange(0, 8)[t] == bytes[t]);
        } else {
            let k = (t - 8) / 48;
            let j = (t - 8) % 48;
            assert(points[k].bytes@ == bytes.subrange(8 + 48 * k, 8 + 48 * k + 48));
            assert(bytes.subrange(8 + 48 * k, 8 + 48 * k + 48)[j] == bytes[t]);
        }
    }
    assert(enc =~= bytes);
}

} // verus!
