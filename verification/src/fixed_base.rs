//! Fixed-base multiplication in the first group: one windowed table of
//! multiples of the base serves every scalar.

use ark_bls12_381::{Fq, Fr, G1Affine, G1Projective};
use ark_ec::scalar_mul::fixed_base::FixedBase;
use ark_ec::{AffineRepr, CurveGroup};
use ark_ff::{BigInt, PrimeField};
use ark_serialize::{CanonicalDeserialize, CanonicalSerialize};
use crate::group::{G1Jacobian, G1Point};
use crate::scalar::{Scalar, SCALAR_BITS};
use vstd::arithmetic::power2::{lemma2_to64, lemma_pow2_unfold, pow2};
use vstd::prelude::*;

verus! {

/// The least `k` with `n <= 2^k`; zero for `n = 0`.
pub open spec fn ceil_log2(n: nat) -> nat
    decreases n,
{
    if n <= 1 {
        0
    } else {
        1 + ceil_log2((n + 1) / 2)
    }
}

/// The window width for a batch of `count` scalars: three bits for small
/// batches, otherwise about the natural logarithm of the count.
pub open spec fn mul_window_size(count: nat) -> nat {
    if count < 32 {
        3
    } else {
        ceil_log2(count) * 69 / 100
    }
}

/// Number of windows that cover `scalar_bits` bits: the rows of a table.
pub open spec fn table_rows(scalar_bits: nat, window: nat) -> nat {
    (scalar_bits + window - 1) as nat / window
}

/// The table of multiples of `base` for a window width.
pub uninterp spec fn g1_window_table(scalar_bits: nat, window: nat, base: G1Point) -> Seq<
    Seq<G1Point>,
>;

/// The product that a table of multiples gives for one scalar, in Jacobian
/// coordinates.
pub uninterp spec fn g1_windowed_mul(
    scalar_bits: nat,
    window: nat,
    table: Seq<Seq<G1Point>>,
    scalar: nat,
) -> G1Jacobian;

/// The affine form of a point in Jacobian coordinates.
pub uninterp spec fn g1_affine_of(point: G1Jacobian) -> G1Point;

/// What the fixed-base route gives for `base` times `scalar`, the scalar
/// being one of a batch of `count`.
pub open spec fn fixed_base_power(base: G1Point, count: nat, scalar: nat) -> G1Point {
    let bits = SCALAR_BITS as nat;
    let window = mul_window_size(count);
    g1_affine_of(g1_windowed_mul(bits, window, g1_window_table(bits, window, base), scalar))
}

/// Multiples of a base point, one row per window of the scalar.
pub(crate) struct WindowTable {
    pub(crate) rows: Vec<Vec<G1Point>>,
}

impl View for WindowTable {
    type V = Seq<Seq<G1Point>>;

    closed spec fn view(&self) -> Seq<Seq<G1Point>> {
        Seq::new(self.rows@.len(), |i: int| self.rows@[i]@)
    }
}

/// A table fits a scalar size and a window width when it has one row per
/// window, each of `2^window` valid points.
pub open spec fn table_fits(table: Seq<Seq<G1Point>>, scalar_bits: nat, window: nat) -> bool {
    &&& table.len() == table_rows(scalar_bits, window)
    &&& forall|i: int| 0 <= i < table.len() ==> (#[trigger] table[i]).len() == pow2(window)
    &&& forall|i: int, j: int|
        0 <= i < table.len() && 0 <= j < table[i].len() ==> (#[trigger] table[i][j]).valid()
}

/// An upper bound of the logarithm.
proof fn lemma_ceil_log2_upper(n: nat, k: nat)
    requires
        n <= pow2(k),
    ensures
        ceil_log2(n) <= k,
    decreases k,
{
    if n > 1 {
        if k == 0 {
            lemma2_to64();
        } else {
            lemma_pow2_unfold(k);
            lemma_ceil_log2_upper((n + 1) / 2, (k - 1) as nat);
        }
    }
}

/// A lower bound of the logarithm.
proof fn lemma_ceil_log2_lower(n: nat, k: nat)
    requires
        n > pow2(k),
    ensures
        ceil_log2(n) > k,
    decreases k,
{
    lemma2_to64();
    if k > 0 {
        lemma_pow2_unfold(k);
        lemma_ceil_log2_lower((n + 1) / 2, (k - 1) as nat);
    }
}

/// The window width of any batch is at least three bits, and small enough
/// for a row of the table to be laid out in memory.
pub proof fn lemma_window_size_bounds(count: nat)
    requires
        count <= usize::MAX,
    ensures
        3 <= mul_window_size(count),
        mul_window_size(count) + 8 < usize::BITS,
{
    vstd::layout::unsigned_int_max_values();
    lemma_ceil_log2_upper(count, usize::BITS as nat);
    if count >= 32 {
        lemma2_to64();
        lemma_ceil_log2_lower(count, 4);
    }
}

/// The products of one base point with each of a batch of scalars: the
/// window width is chosen for the batch, the table is built once, every
/// scalar is multiplied against it, and the results are brought to affine
/// form together.
pub fn fixed_base_powers(base: &G1Point, scalars: &Vec<Scalar>) -> (out: Vec<G1Point>)
    requires
        base.valid(),
        forall|i: int| 0 <= i < scalars@.len() ==> (#[trigger] scalars@[i]).wf(),
    ensures
        out@.len() == scalars@.len(),
        forall|i: int|
            0 <= i < out@.len() ==> #[trigger] out@[i] == fixed_base_power(
                *base,
                scalars@.len(),
                scalars@[i]@,
            ),
        forall|i: int| 0 <= i < out@.len() ==> (#[trigger] out@[i]).valid(),
{
    let window = window_size(scalars.len());
    proof {
        lemma_window_size_bounds(scalars@.len());
    }
    let table = window_table(SCALAR_BITS, window, base);
    let products = fixed_base_msm(SCALAR_BITS, window, &table, scalars);
    normalize_batch(&products)
}

/// Trusted: `FixedBase::get_mul_window_size`, which returns 3 below 32
/// scalars and otherwise `log2(count) * 69 / 100`, `log2` rounding up.
#[verifier::external_body]
fn window_size(count: usize) -> (window: usize)
    ensures
        window == mul_window_size(count as nat),
{
    FixedBase::get_mul_window_size(count)
}

/// Trusted: `FixedBase::get_window_table` on the decoded base. The table
/// is a function of its three arguments, which `g1_window_table` names. It
/// has one row per window and `2^window` entries in each, all of them
/// elements of the group.
#[verifier::external_body]
fn window_table(scalar_bits: usize, window: usize, base: &G1Point) -> (table: WindowTable)
    requires
        1 <= scalar_bits,
        1 <= window,
        window + 8 < usize::BITS,
        scalar_bits + window <= usize::MAX,
        base.valid(),
    ensures
        table@ == g1_window_table(scalar_bits as nat, window as nat, *base),
        table_fits(table@, scalar_bits as nat, window as nat),
{
    let point = G1Affine::deserialize_compressed(&base.bytes[..]).unwrap().into_group();
    let table = FixedBase::get_window_table(scalar_bits, window, point);
    let rows = table.iter().map(|row| row.iter().map(|entry| {
        let mut bytes = [0u8; 48];
        entry.serialize_compressed(&mut bytes[..]).unwrap();
        G1Point { bytes }
    }).collect()).collect();
    WindowTable { rows }
}

/// Trusted: `FixedBase::msm`, which multiplies each scalar against the
/// table on its own. Each product is a function of the table and the one
/// scalar, which `g1_windowed_mul` names; its coordinates are reduced and
/// its affine form is an element of the group.
#[verifier::external_body]
fn fixed_base_msm(
    scalar_bits: usize,
    window: usize,
    table: &WindowTable,
    scalars: &Vec<Scalar>,
) -> (out: Vec<G1Jacobian>)
    requires
        1 <= scalar_bits,
        1 <= window < usize::BITS,
        scalar_bits + window <= usize::MAX,
        table_fits(table@, scalar_bits as nat, window as nat),
        forall|i: int| 0 <= i < scalars@.len() ==> (#[trigger] scalars@[i]).wf(),
    ensures
        out@.len() == scalars@.len(),
        forall|i: int|
            0 <= i < out@.len() ==> #[trigger] out@[i] == g1_windowed_mul(
                scalar_bits as nat,
                window as nat,
                table@,
                scalars@[i]@,
            ),
        forall|i: int| 0 <= i < out@.len() ==> (#[trigger] out@[i]).wf(),
        forall|i: int| 0 <= i < out@.len() ==> g1_affine_of(#[trigger] out@[i]).valid(),
{
    let rows: Vec<Vec<G1Affine>> = table.rows.iter().map(|row| row.iter().map(|entry|
        G1Affine::deserialize_compressed(&entry.bytes[..]).unwrap()).collect()).collect();
    let factors: Vec<Fr> = scalars.iter().map(|s|
        Fr::from_bigint(BigInt::new(s.limbs)).unwrap()).collect();
    let products = FixedBase::msm::<G1Projective>(scalar_bits, window, &rows, &factors);
    products.iter().map(|p| G1Jacobian {
        x: p.x.into_bigint().0,
        y: p.y.into_bigint().0,
        z: p.z.into_bigint().0,
    }).collect()
}

/// Trusted: `CurveGroup::normalize_batch` of `G1Projective`, which brings
/// each point to its affine form `(x / z^2, y / z^3)`, the identity where
/// `z` is zero. Each result is a function of the one point, which
/// `g1_affine_of` names.
#[verifier::external_body]
fn normalize_batch(points: &Vec<G1Jacobian>) -> (out: Vec<G1Point>)
    requires
        forall|i: int| 0 <= i < points@.len() ==> (#[trigger] points@[i]).wf(),
    ensures
        out@.len() == points@.len(),
        forall|i: int| 0 <= i < out@.len() ==> #[trigger] out@[i] == g1_affine_of(points@[i]),
{
    let projective: Vec<G1Projective> = points.iter().map(|p| G1Projective::new_unchecked(
        Fq::from_bigint(BigInt::new(p.x)).unwrap(),
        Fq::from_bigint(BigInt::new(p.y)).unwrap(),
        Fq::from_bigint(BigInt::new(p.z)).unwrap(),
    )).collect();
    G1Projective::normalize_batch(&projective).iter().map(|p| {
        let mut bytes = [0u8; 48];
        p.serialize_compressed(&mut bytes[..]).unwrap();
        G1Point { bytes }
    }).collect()
}

} // verus!
