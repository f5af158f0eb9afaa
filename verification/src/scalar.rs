//! Elements of the BLS12-381 scalar field, held as four little-endian limbs.

use ark_bls12_381::Fr;
use ark_ff::{BigInt, PrimeField};
use vstd::arithmetic::div_mod::{lemma_mul_mod_noop_left, lemma_small_mod};
use vstd::arithmetic::power::{lemma_pow0, lemma_pow1, lemma_pow_adds, pow};
use vstd::arithmetic::power2::{lemma2_to64, lemma2_to64_rest, lemma_pow2_adds, pow2};
use vstd::prelude::*;

verus! {

/// Number of bits of the scalar field's order.
pub const SCALAR_BITS: usize = 255;

/// The order `r` of the scalar field.
pub open spec fn scalar_modulus() -> nat {
    0x73eda753299d7d483339d80809a1d80553bda402fffe5bfeffffffff00000001nat
}

/// The integer that four little-endian 64-bit limbs stand for.
pub open spec fn limbs_value(limbs: [u64; 4]) -> nat {
    (limbs[0] as nat) + (limbs[1] as nat) * 0x1_0000_0000_0000_0000nat + (limbs[2] as nat)
        * 0x1_0000_0000_0000_0000_0000_0000_0000_0000nat + (limbs[3] as nat)
        * 0x1_0000_0000_0000_0000_0000_0000_0000_0000_0000_0000_0000_0000nat
}

/// A scalar: an integer below the field order once it is well formed.
#[derive(Clone, Copy, PartialEq, Eq, Debug)]
pub struct Scalar {
    pub limbs: [u64; 4],
}

impl View for Scalar {
    type V = nat;

    open spec fn view(&self) -> nat {
        limbs_value(self.limbs)
    }
}

impl Scalar {
    /// A scalar is well formed when its value is reduced modulo the field order.
    pub open spec fn wf(&self) -> bool {
        self@ < scalar_modulus()
    }

    /// The multiplicative identity.
    pub fn one() -> (s: Scalar)
        ensures
            s@ == 1,
            s.wf(),
    {
        Scalar { limbs: [1, 0, 0, 0] }
    }

    /// Builds a scalar from its limbs, refusing values that are not reduced.
    pub fn from_limbs(limbs: [u64; 4]) -> (res: Option<Scalar>)
        ensures
            res == if limbs_value(limbs) < scalar_modulus() {
                Some(Scalar { limbs })
            } else {
                None
            },
    {
        let m0: u64 = 0xffffffff00000001;
        let m1: u64 = 0x53bda402fffe5bfe;
        let m2: u64 = 0x3339d80809a1d805;
        let m3: u64 = 0x73eda753299d7d48;
        let below = if limbs[3] != m3 {
            limbs[3] < m3
        } else if limbs[2] != m2 {
            limbs[2] < m2
        } else if limbs[1] != m1 {
            limbs[1] < m1
        } else {
            limbs[0] < m0
        };
        if below {
            Some(Scalar { limbs })
        } else {
            None
        }
    }
}

/// The field order has exactly `SCALAR_BITS` bits.
pub proof fn lemma_scalar_modulus_bits()
    ensures
        pow2((SCALAR_BITS - 1) as nat) <= scalar_modulus() < pow2(SCALAR_BITS as nat),
{
    lemma2_to64();
    lemma2_to64_rest();
    lemma_pow2_adds(63, 64);
    lemma_pow2_adds(127, 127);
    lemma_pow2_adds(254, 1);
    let a = pow2(63) as int;
    let b = pow2(64) as int;
    let c = pow2(127) as int;
    assert(c == 0x8000_0000_0000_0000_0000_0000_0000_0000) by (nonlinear_arith)
        requires
            a == 0x8000_0000_0000_0000,
            b == 0x1_0000_0000_0000_0000,
            c == a * b,
    ;
    assert(c * c == 0x4000_0000_0000_0000_0000_0000_0000_0000_0000_0000_0000_0000_0000_0000_0000_0000)
        by (nonlinear_arith)
        requires
            c == 0x8000_0000_0000_0000_0000_0000_0000_0000,
    ;
}

/// `base` to the power `exp`, reduced modulo the field order.
pub open spec fn pow_mod(base: nat, exp: nat) -> nat {
    (pow(base as int, exp) % (scalar_modulus() as int)) as nat
}

/// The values of a sequence of scalars.
pub open spec fn scalar_values(scalars: Seq<Scalar>) -> Seq<nat> {
    Seq::new(scalars.len(), |i: int| scalars[i]@)
}

/// The powers `base^0, base^1, .., base^top`, each reduced modulo the field
/// order.
pub open spec fn ladder(base: nat, top: nat) -> Seq<nat> {
    Seq::new(top + 1, |i: int| pow_mod(base, i as nat))
}

/// The zeroth power is one and the first is the base itself.
pub proof fn lemma_pow_mod_start(base: nat)
    requires
        base < scalar_modulus(),
    ensures
        pow_mod(base, 0) == 1,
        pow_mod(base, 1) == base,
{
    lemma_pow0(base as int);
    lemma_pow1(base as int);
    lemma_small_mod(1, scalar_modulus());
    lemma_small_mod(base, scalar_modulus());
}

/// Each power is the one before it times the base, reduced.
pub proof fn lemma_pow_mod_step(base: nat, exp: nat)
    ensures
        pow_mod(base, exp + 1) == (pow_mod(base, exp) * base) % scalar_modulus(),
{
    let m = scalar_modulus() as int;
    let b = base as int;
    lemma_pow_adds(b, exp, 1);
    lemma_pow1(b);
    assert(pow(b, exp + 1) == pow(b, exp) * b);
    lemma_mul_mod_noop_left(pow(b, exp), b, m);
}

/// The exponent ladder of a trapdoor: `[1, beta, beta^2, .., beta^top]`,
/// built by repeated multiplication.
pub fn exponent_ladder(beta: &Scalar, top: usize) -> (out: Vec<Scalar>)
    requires
        beta.wf(),
        top < usize::MAX,
    ensures
        scalar_values(out@) == ladder(beta@, top as nat),
        forall|i: int| 0 <= i < out@.len() ==> (#[trigger] out@[i]).wf(),
{
    let mut powers: Vec<Scalar> = Vec::new();
    powers.push(Scalar::one());
    let mut cur = *beta;
    let mut i: usize = 0;
    proof {
        lemma_pow_mod_start(beta@);
    }
    while i < top
        invariant
            i <= top,
            top < usize::MAX,
            beta.wf(),
            cur.wf(),
            cur@ == pow_mod(beta@, (i + 1) as nat),
            powers@.len() == i + 1,
            forall|k: int| 0 <= k <= i ==> (#[trigger] powers@[k]).wf(),
            forall|k: int| 0 <= k <= i ==> (#[trigger] powers@[k])@ == pow_mod(beta@, k as nat),
        decreases top - i,
    {
        powers.push(cur);
        proof {
            lemma_pow_mod_step(beta@, (i + 1) as nat);
        }
        cur = field_mul(&cur, beta);
        i += 1;
    }
    assert(scalar_values(powers@) =~= ladder(beta@, top as nat));
    powers
}

/// Trusted: multiplication in `Fr`, between `from_bigint` and `into_bigint`,
/// which map the integers below the field order to the field's elements and
/// back. The product of two field elements is the product of their integers
/// modulo the order.
#[verifier::external_body]
pub(crate) fn field_mul(a: &Scalar, b: &Scalar) -> (out: Scalar)
    requires
        a.wf(),
        b.wf(),
    ensures
        out@ == (a@ * b@) % scalar_modulus(),
        out.wf(),
{
    let mut product = Fr::from_bigint(BigInt::new(a.limbs)).unwrap();
    product *= &Fr::from_bigint(BigInt::new(b.limbs)).unwrap();
    Scalar { limbs: product.into_bigint().0 }
}

} // verus!
