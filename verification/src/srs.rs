//! Universal parameters, their trusted setup, and the prover and verifier
//! parameters trimmed from them.

use ark_std::rand::rngs::StdRng;
use crate::entropy::{sample_g1, sample_g2, sample_scalar};
use crate::error::SrsError;
use crate::fixed_base::{fixed_base_power, fixed_base_powers};
use crate::group::{g2_mul, g2_scalar_mul, G1Point, G2Point};
use crate::scalar::{exponent_ladder, pow_mod, scalar_modulus, scalar_values, Scalar};
use vstd::arithmetic::power2::{lemma_pow2_strictly_increases, pow2};
use vstd::bits::{lemma_usize_pow2_no_overflow, lemma_usize_shl_is_mul};
use vstd::prelude::*;

verus! {

/// The universal parameters: `powers_of_g[i]` is the generator `g` of the
/// first group raised to the `i`-th power of a secret scalar, `h` generates
/// the second group, and `beta_h` is `h` raised to the secret.
#[derive(Clone, PartialEq, Eq, Debug)]
pub struct MercuryUniversalParams {
    pub powers_of_g: Vec<G1Point>,
    pub h: G2Point,
    pub beta_h: G2Point,
}

/// What a prover needs: a prefix of the powers.
#[derive(Clone, PartialEq, Eq, Debug)]
pub struct MercuryProverParam {
    pub powers_of_g: Vec<G1Point>,
}

/// What a verifier needs: three points, whatever the supported degree.
#[derive(Clone, Copy, PartialEq, Eq, Debug)]
pub struct MercuryVerifierParam {
    pub g: G1Point,
    pub h: G2Point,
    pub beta_h: G2Point,
}

/// The universal parameters as a mathematical value.
pub struct UniversalModel {
    pub powers_of_g: Seq<G1Point>,
    pub h: G2Point,
    pub beta_h: G2Point,
}

impl UniversalModel {
    /// There is at least the zeroth power.
    pub open spec fn wf(self) -> bool {
        self.powers_of_g.len() >= 1
    }

    /// Every point is the canonical encoding of a group element.
    pub open spec fn valid(self) -> bool {
        &&& forall|i: int|
            0 <= i < self.powers_of_g.len() ==> (#[trigger] self.powers_of_g[i]).valid()
        &&& self.h.valid()
        &&& self.beta_h.valid()
    }

    /// The largest supported degree: one less than the number of powers.
    pub open spec fn max_degree(self) -> nat {
        (self.powers_of_g.len() - 1) as nat
    }

    /// The powers up to and including index `supported_size`.
    pub open spec fn prover_powers(self, supported_size: nat) -> Seq<G1Point> {
        self.powers_of_g.take((supported_size + 1) as int)
    }

    /// The generator of the first group with the two points of the second.
    pub open spec fn verifier_param(self) -> MercuryVerifierParam {
        MercuryVerifierParam { g: self.powers_of_g[0], h: self.h, beta_h: self.beta_h }
    }

    /// Both extractions for a size within the supported degree; the
    /// refusal, with the size and the supported degree, for one beyond it.
    pub open spec fn trim(self, supported_size: usize) -> Result<
        (Seq<G1Point>, MercuryVerifierParam),
        SrsError,
    > {
        if supported_size <= self.max_degree() {
            Ok((self.prover_powers(supported_size as nat), self.verifier_param()))
        } else {
            Err(
                SrsError::DegreeTooLarge {
                    supported_size,
                    max_degree: self.max_degree() as usize,
                },
            )
        }
    }
}

impl View for MercuryUniversalParams {
    type V = UniversalModel;

    open spec fn view(&self) -> UniversalModel {
        UniversalModel { powers_of_g: self.powers_of_g@, h: self.h, beta_h: self.beta_h }
    }
}

impl View for MercuryProverParam {
    type V = Seq<G1Point>;

    open spec fn view(&self) -> Seq<G1Point> {
        self.powers_of_g@
    }
}

/// A requested bound, raised to the next even number where it is odd.
pub open spec fn even_bound_spec(requested: nat) -> nat {
    if requested % 2 == 1 {
        requested + 1
    } else {
        requested
    }
}

/// The degree bound of a setup: two to the power of the even bound.
pub open spec fn degree_bound_spec(requested: nat) -> nat {
    pow2(even_bound_spec(requested))
}

/// The parameters that a setup with secret `beta` and generators `g` and
/// `h` yields for a requested bound.
pub open spec fn srs_model(beta: nat, g: G1Point, h: G2Point, requested: nat) -> UniversalModel {
    let top = degree_bound_spec(requested);
    UniversalModel {
        powers_of_g: Seq::new(
            top + 1,
            |i: int| fixed_base_power(g, top + 1, pow_mod(beta, i as nat)),
        ),
        h,
        beta_h: g2_scalar_mul(h, beta),
    }
}

/// A bound can be set up on this machine when the powers can be counted in
/// a `usize`.
pub open spec fn bound_fits(requested: nat) -> bool {
    even_bound_spec(requested) < usize::BITS
}

/// Rounds an odd bound up to the next even number.
pub fn even_bound(requested: usize) -> (even: usize)
    requires
        requested < usize::MAX,
    ensures
        even == even_bound_spec(requested as nat),
{
    if requested % 2 == 1 {
        requested + 1
    } else {
        requested
    }
}

/// The degree bound `2^even` for a requested bound.
pub fn degree_bound(requested: usize) -> (top: usize)
    requires
        bound_fits(requested as nat),
    ensures
        top == degree_bound_spec(requested as nat),
        top < usize::MAX,
{
    let even = even_bound(requested);
    proof {
        lemma_usize_pow2_no_overflow(even as nat);
        lemma_usize_shl_is_mul(1, even);
    }
    1usize << even
}

impl MercuryUniversalParams {
    /// There is at least the zeroth power.
    pub open spec fn wf(&self) -> bool {
        self@.wf()
    }

    /// The largest degree that these parameters support.
    pub fn max_degree(&self) -> (degree: usize)
        requires
            self.wf(),
        ensures
            degree == self@.max_degree(),
    {
        self.powers_of_g.len() - 1
    }

    /// The prover's parameters for polynomials of degree up to
    /// `supported_size`: a copy of the first `supported_size + 1` powers.
    pub fn extract_prover_param(&self, supported_size: usize) -> (pk: MercuryProverParam)
        requires
            self.wf(),
            supported_size <= self@.max_degree(),
        ensures
            pk@ == self@.prover_powers(supported_size as nat),
    {
        let mut powers: Vec<G1Point> = Vec::new();
        let mut i: usize = 0;
        while i <= supported_size
            invariant
                i <= supported_size + 1,
                supported_size < self.powers_of_g.len(),
                powers@ == self.powers_of_g@.take(i as int),
            decreases supported_size + 1 - i,
        {
            powers.push(self.powers_of_g[i]);
            assert(powers@ =~= self.powers_of_g@.take(i + 1));
            i += 1;
        }
        MercuryProverParam { powers_of_g: powers }
    }

    /// The verifier's parameters. They do not depend on the supported size.
    pub fn extract_verifier_param(&self, _supported_size: usize) -> (vk: MercuryVerifierParam)
        requires
            self.wf(),
        ensures
            vk == self@.verifier_param(),
    {
        MercuryVerifierParam { g: self.powers_of_g[0], h: self.h, beta_h: self.beta_h }
    }

    /// Both sets of parameters for `supported_size`, or the refusal of a
    /// size beyond what these parameters support.
    pub fn trim(&self, supported_size: usize) -> (res: Result<
        (MercuryProverParam, MercuryVerifierParam),
        SrsError,
    >)
        requires
            self.wf(),
        ensures
            match res {
                Ok((pk, vk)) => self@.trim(supported_size) == Ok::<_, SrsError>((pk@, vk)),
                Err(e) => self@.trim(supported_size) == Err::<(Seq<G1Point>, MercuryVerifierParam), _>(e),
            },
    {
        let max_degree = self.max_degree();
        if supported_size > max_degree {
            return Err(SrsError::DegreeTooLarge { supported_size, max_degree });
        }
        let pk = self.extract_prover_param(supported_size);
        let vk = self.extract_verifier_param(supported_size);
        Ok((pk, vk))
    }

    /// The setup once the secret and the generators are drawn: the ladder
    /// of the secret's powers, the generator of the first group raised to
    /// each of them over one shared table, and `h` raised to the secret.
    pub fn from_trapdoor(beta: &Scalar, g: &G1Point, h: &G2Point, requested_bound: usize) -> (pp:
        MercuryUniversalParams)
        requires
            beta.wf(),
            g.valid(),
            h.valid(),
            bound_fits(requested_bound as nat),
        ensures
            pp@ == srs_model(beta@, *g, *h, requested_bound as nat),
            pp@.valid(),
    {
        let top = degree_bound(requested_bound);
        let powers_of_beta = exponent_ladder(beta, top);
        let powers_of_g = fixed_base_powers(g, &powers_of_beta);
        let beta_h = g2_mul(h, beta);
        let pp = MercuryUniversalParams { powers_of_g, h: *h, beta_h };
        proof {
            let model = srs_model(beta@, *g, *h, requested_bound as nat);
            let exponents = scalar_values(powers_of_beta@);
            assert(exponents.len() == top + 1);
            assert forall|i: int| 0 <= i < top + 1 implies pp@.powers_of_g[i]
                == model.powers_of_g[i] by {
                assert(exponents[i] == pow_mod(beta@, i as nat));
            }
            assert(pp@.powers_of_g =~= model.powers_of_g);
        }
        pp
    }

    /// Trusted setup with a secret drawn on the spot. For tests only: who
    /// runs it knows the secret for as long as the call lasts.
    pub fn gen_srs_for_testing(rng: &mut StdRng, requested_bound: usize) -> (res: Result<
        MercuryUniversalParams,
        SrsError,
    >)
        requires
            bound_fits(requested_bound as nat),
        ensures
            res is Ok,
            exists|beta: nat, g: G1Point, h: G2Point|
                beta < scalar_modulus() && g.valid() && h.valid() && res->Ok_0@ == #[trigger] srs_model(
                    beta,
                    g,
                    h,
                    requested_bound as nat,
                ),
            res->Ok_0@.valid(),
            res->Ok_0@.powers_of_g.len() == pow2(even_bound_spec(requested_bound as nat)) + 1,
            res->Ok_0@.max_degree() >= pow2(requested_bound as nat),
    {
        let beta = sample_scalar(rng);
        let g = sample_g1(rng);
        let h = sample_g2(rng);
        let pp = MercuryUniversalParams::from_trapdoor(&beta, &g, &h, requested_bound);
        proof {
            assert(pp@ == srs_model(beta@, g, h, requested_bound as nat));
            if requested_bound % 2 == 1 {
                lemma_pow2_strictly_increases(
                    requested_bound as nat,
                    (requested_bound + 1) as nat,
                );
            }
        }
        Ok(pp)
    }
}

} // verus!
