//! What holds of setup and trimming whatever the inputs.

use crate::codec::{powers_ok, verifier_ok};
use crate::error::SrsError;
use crate::fixed_base::fixed_base_power;
use crate::group::{G1Point, G2Point};
use crate::scalar::{lemma_pow_mod_step, pow_mod, scalar_modulus};
use crate::srs::{degree_bound_spec, even_bound_spec, srs_model, UniversalModel};
use vstd::arithmetic::power2::{lemma_pow2_strictly_increases, pow2};
use vstd::prelude::*;

verus! {

/// A setup yields one power more than two to the even bound.
pub proof fn lemma_setup_length(beta: nat, g: G1Point, h: G2Point, requested: nat)
    ensures
        srs_model(beta, g, h, requested).powers_of_g.len() == pow2(even_bound_spec(requested)) + 1,
        srs_model(beta, g, h, requested).wf(),
        srs_model(beta, g, h, requested).max_degree() == degree_bound_spec(requested),
{
}

/// Rounding an odd bound up never costs capacity: the supported degree is
/// at least two to the requested bound.
pub proof fn lemma_rounding_keeps_capacity(beta: nat, g: G1Point, h: G2Point, requested: nat)
    ensures
        srs_model(beta, g, h, requested).max_degree() >= pow2(requested),
{
    if requested % 2 == 1 {
        lemma_pow2_strictly_increases(requested, requested + 1);
    }
}

/// The exponents of consecutive powers form a ladder: each power of a
/// setup is the generator raised to the exponent of the power before it
/// times the secret, and the zeroth exponent is one.
pub proof fn lemma_setup_exponents_form_ladder(
    beta: nat,
    g: G1Point,
    h: G2Point,
    requested: nat,
    i: nat,
)
    requires
        beta < scalar_modulus(),
        i < degree_bound_spec(requested),
    ensures
        srs_model(beta, g, h, requested).powers_of_g[0] == fixed_base_power(
            g,
            degree_bound_spec(requested) + 1,
            1,
        ),
        srs_model(beta, g, h, requested).powers_of_g[(i + 1) as int] == fixed_base_power(
            g,
            degree_bound_spec(requested) + 1,
            (pow_mod(beta, i) * beta) % scalar_modulus(),
        ),
{
    crate::scalar::lemma_pow_mod_start(beta);
    lemma_pow_mod_step(beta, i);
}

/// Trimming gives what the two extractions give.
pub proof fn lemma_trim_agrees_with_extraction(params: UniversalModel, supported_size: usize)
    requires
        params.wf(),
        supported_size <= params.max_degree(),
    ensures
        params.trim(supported_size) == Ok::<_, SrsError>(
            (params.prover_powers(supported_size as nat), params.verifier_param()),
        ),
{
}

/// The prover's powers for a smaller size are a prefix of those for a
/// larger one.
pub proof fn lemma_prover_powers_monotone(params: UniversalModel, smaller: nat, larger: nat)
    requires
        params.wf(),
        smaller < larger <= params.max_degree(),
    ensures
        params.prover_powers(smaller).is_prefix_of(params.prover_powers(larger)),
        params.prover_powers(smaller) == params.prover_powers(larger).take((smaller + 1) as int),
{
    assert(params.prover_powers(smaller) =~= params.prover_powers(larger).take((smaller + 1) as int));
}

/// The prover's powers hold exactly `supported_size + 1` points.
pub proof fn lemma_prover_powers_length(params: UniversalModel, supported_size: nat)
    requires
        params.wf(),
        supported_size <= params.max_degree(),
    ensures
        params.prover_powers(supported_size).len() == supported_size + 1,
{
}

/// For size zero the prover holds the generator and nothing else.
pub proof fn lemma_prover_powers_at_zero(params: UniversalModel)
    requires
        params.wf(),
    ensures
        params.prover_powers(0) == seq![params.powers_of_g[0]],
{
    assert(params.prover_powers(0) =~= seq![params.powers_of_g[0]]);
}

/// Trimming valid parameters gives valid parameters: a prover's powers
/// and a verifier's points that have a byte form to be read back from.
pub proof fn lemma_trim_keeps_validity(params: UniversalModel, supported_size: nat)
    requires
        params.wf(),
        params.valid(),
        supported_size <= params.max_degree(),
    ensures
        powers_ok(params.prover_powers(supported_size)),
        verifier_ok(params.verifier_param()),
{
    let prefix = params.prover_powers(supported_size);
    assert forall|i: int| 0 <= i < prefix.len() implies (#[trigger] prefix[i]).valid() by {
        assert(prefix[i] == params.powers_of_g[i]);
    }
}

/// Every size beyond the supported degree is refused, the first of them
/// included, and the refusal names the size and the supported degree.
pub proof fn lemma_trim_refuses_beyond_max(params: UniversalModel, supported_size: usize)
    requires
        params.wf(),
        supported_size > params.max_degree(),
    ensures
        params.trim(supported_size) == Err::<(Seq<G1Point>, crate::srs::MercuryVerifierParam), _>(
            SrsError::DegreeTooLarge {
                supported_size,
                max_degree: params.max_degree() as usize,
            },
        ),
{
}

} // verus!
