//! The verification of a proof: the combination of the public inputs with the
//! input bases of the key, and the pairing equation of Groth16.

use vstd::prelude::*;
use crate::artifacts::{
    decode_proof, decode_public_inputs, decode_verifying_key, CircuitProof, CircuitPublicParams,
    CircuitVerifyingKey, ProofView, RawCircuitProof, RawPublicParams, RawVerificationKey,
    VerifyingKeyView,
};
use crate::bn254::{g1_add, g1_scale, g1_scaled, g1_sum};
use crate::error::{VerifierError, VerifyError};
use crate::field::fr_modulus;
use crate::pairing::{
    pairing_product, pairing_value, pairing_values_agree, pairs_view, products_agree,
};
use crate::point::{g1_valid, G1Point, G1Value, G2Point};

verus! {

/// The point that stands for the public inputs in the pairing equation:
/// `ic[0] + inputs[0] * ic[1] + ... + inputs[n - 1] * ic[n]`, summed from the
/// left.
pub open spec fn combination(ic: Seq<G1Value>, inputs: Seq<nat>) -> G1Value
    decreases inputs.len(),
{
    if inputs.len() == 0 {
        ic[0]
    } else {
        g1_sum(
            combination(ic, inputs.drop_last()),
            g1_scaled(ic[inputs.len() as int], inputs.last()),
        )
    }
}

/// The pairing equation of Groth16,
/// `e(A, B) = e(alpha, beta) * e(input_point, gamma) * e(C, delta)`:
/// whether both sides are defined and equal.
pub open spec fn groth16_accepts(vk: VerifyingKeyView, proof: ProofView, input_point: G1Value)
    -> bool {
    pairing_values_agree(
        pairing_value(seq![(proof.a, proof.b)]),
        pairing_value(
            seq![(vk.alpha, vk.beta), (input_point, vk.gamma), (proof.c, vk.delta)],
        ),
    )
}

/// What the verification of `proof` against `vk` and `inputs` comes to: an
/// error where the number of inputs is not the number of input bases minus
/// one, else whether the pairing equation holds with the combination of the
/// inputs.
pub open spec fn verification(vk: VerifyingKeyView, proof: ProofView, inputs: Seq<nat>) -> Result<
    bool,
    VerifyError,
> {
    if inputs.len() + 1 != vk.ic.len() {
        Err(VerifyError::PublicInputCountMismatch)
    } else {
        Ok(groth16_accepts(vk, proof, combination(vk.ic, inputs)))
    }
}

/// Combines the public inputs with the input bases of the key.
///
/// Fails exactly where the number of inputs is not the number of input bases
/// minus one.
pub fn combine(vk: &CircuitVerifyingKey, inputs: &CircuitPublicParams) -> (r: Result<
    G1Point,
    VerifyError,
>)
    ensures
        r is Ok <==> inputs@.len() + 1 == vk@.ic.len(),
        r matches Ok(p) ==> p@ == combination(vk@.ic, inputs@),
        r matches Err(e) ==> e == VerifyError::PublicInputCountMismatch,
{
    let n: usize = inputs.len();
    let m: usize = vk.ic_len();
    if m == 0 || n != m - 1 {
        return Err(VerifyError::PublicInputCountMismatch);
    }
    let mut acc: G1Point = vk.ic(0).unwrap();
    let mut i: usize = 0;
    assert(inputs@.take(0) =~= Seq::<nat>::empty());
    while i < n
        invariant
            n == inputs@.len(),
            n + 1 == vk@.ic.len(),
            0 <= i <= n,
            acc@ == combination(vk@.ic, inputs@.take(i as int)),
        decreases n - i,
    {
        let base: G1Point = vk.ic(i + 1).unwrap();
        let weight = inputs.get(i).unwrap();
        let term = g1_scale(&base, &weight);
        proof {
            assert(inputs@.take(i + 1).drop_last() =~= inputs@.take(i as int));
            assert(inputs@.take(i + 1).last() == inputs@[i as int]);
        }
        acc = g1_add(&acc, &term);
        i = i + 1;
    }
    assert(inputs@.take(n as int) =~= inputs@);
    Ok(acc)
}

/// Whether the pairing equation of Groth16 holds for the key, the proof and
/// the point that stands for the public inputs. Both sides of the equation are
/// computed in full.
pub fn check_equation(vk: &CircuitVerifyingKey, proof: &CircuitProof, input_point: &G1Point) -> (b:
    bool)
    ensures
        b == groth16_accepts(vk@, proof@, input_point@),
{
    let mut left: Vec<(G1Point, G2Point)> = Vec::new();
    left.push((proof.a(), proof.b()));
    let mut right: Vec<(G1Point, G2Point)> = Vec::new();
    right.push((vk.alpha_g1(), vk.beta_g2()));
    right.push((*input_point, vk.gamma_g2()));
    right.push((proof.c(), vk.delta_g2()));
    assert(pairs_view(left@) =~= seq![(proof@.a, proof@.b)]);
    assert(pairs_view(right@) =~= seq![
        (vk@.alpha, vk@.beta),
        (input_point@, vk@.gamma),
        (proof@.c, vk@.delta),
    ]);
    let lhs = pairing_product(&left);
    let rhs = pairing_product(&right);
    products_agree(&lhs, &rhs)
}

/// Verifies `proof` against the key `vk` and the public inputs `inputs`.
///
/// Fails exactly where the number of inputs is not the number of input bases
/// minus one; otherwise says whether the pairing equation holds.
pub fn verify(vk: &CircuitVerifyingKey, proof: &CircuitProof, inputs: &CircuitPublicParams) -> (r:
    Result<bool, VerifyError>)
    ensures
        r == verification(vk@, proof@, inputs@),
{
    match combine(vk, inputs) {
        Ok(input_point) => Ok(check_equation(vk, proof, &input_point)),
        Err(e) => Err(e),
    }
}

/// Verification is a function of the artifacts: the same key, proof and
/// inputs give the same verdict.
pub proof fn lemma_verification_deterministic(
    vk1: CircuitVerifyingKey,
    proof1: CircuitProof,
    inputs1: CircuitPublicParams,
    vk2: CircuitVerifyingKey,
    proof2: CircuitProof,
    inputs2: CircuitPublicParams,
)
    requires
        vk1@ == vk2@,
        proof1@ == proof2@,
        inputs1@ == inputs2@,
    ensures
        verification(vk1@, proof1@, inputs1@) == verification(vk2@, proof2@, inputs2@),
{
}

/// What a run on the three raw artifacts comes to: the public inputs, the
/// proof and the key are decoded in this order, the first failure ending the
/// run, and the proof is then verified.
pub open spec fn verifier_outcome(
    inputs: RawPublicParams,
    proof: RawCircuitProof,
    vk: RawVerificationKey,
) -> Result<bool, VerifierError> {
    match decode_public_inputs(inputs) {
        Err(e) => Err(VerifierError::Decode(e)),
        Ok(values) => match decode_proof(proof) {
            Err(e) => Err(VerifierError::Decode(e)),
            Ok(p) => match decode_verifying_key(vk) {
                Err(e) => Err(VerifierError::Decode(e)),
                Ok(key) => match verification(key, p, values) {
                    Err(e) => Err(VerifierError::Verify(e)),
                    Ok(b) => Ok(b),
                },
            },
        },
    }
}

/// Decodes the three raw artifacts and verifies the proof.
pub fn run_verifier(inputs: &RawPublicParams, proof: &RawCircuitProof, vk: &RawVerificationKey)
    -> (r: Result<bool, VerifierError>)
    ensures
        r == verifier_outcome(*inputs, *proof, *vk),
{
    let values = match CircuitPublicParams::read_input_from_json(inputs) {
        Ok(v) => v,
        Err(e) => {
            return Err(VerifierError::Decode(e));
        },
    };
    let p = match CircuitProof::read_input_from_json(proof) {
        Ok(v) => v,
        Err(e) => {
            return Err(VerifierError::Decode(e));
        },
    };
    let key = match CircuitVerifyingKey::read_input_from_json(vk) {
        Ok(v) => v,
        Err(e) => {
            return Err(VerifierError::Decode(e));
        },
    };
    match verify(&key, &p, &values) {
        Ok(b) => Ok(b),
        Err(e) => Err(VerifierError::Verify(e)),
    }
}

/// The public inputs, each multiplied by `k` in the scalar field.
pub open spec fn scaled_inputs(inputs: Seq<nat>, k: nat) -> Seq<nat> {
    inputs.map_values(|a: nat| (k * a) % fr_modulus())
}

/// The part of a combination that depends on the public inputs:
/// `inputs[0] * ic[1] + ... + inputs[n - 1] * ic[n]`, summed from the left,
/// starting from the identity.
pub open spec fn weighted_sum(ic: Seq<G1Value>, inputs: Seq<nat>) -> G1Value
    decreases inputs.len(),
{
    if inputs.len() == 0 {
        None
    } else {
        g1_sum(
            weighted_sum(ic, inputs.drop_last()),
            g1_scaled(ic[inputs.len() as int], inputs.last()),
        )
    }
}

/// The laws that make the points of the first group a module over the
/// scalar field, as far as the scaling of a combination needs them: sums and
/// multiples of points of the group are points of the group, the identity is
/// neutral, the sum is associative, and taking multiples distributes over
/// sums and composes as the product of the scalars does.
///
/// These are laws of the curve arithmetic. Nothing in this library proves
/// them of [`g1_sum`] and [`g1_scaled`].
pub open spec fn g1_module_laws() -> bool {
    &&& forall|p: G1Value, q: G1Value|
        g1_valid(p) && g1_valid(q) ==> g1_valid(#[trigger] g1_sum(p, q))
    &&& forall|p: G1Value, k: nat| g1_valid(p) ==> g1_valid(#[trigger] g1_scaled(p, k))
    &&& forall|p: G1Value| g1_valid(p) ==> #[trigger] g1_sum(p, None) == p
    &&& forall|p: G1Value, q: G1Value, r: G1Value|
        g1_valid(p) && g1_valid(q) && g1_valid(r) ==> #[trigger] g1_sum(g1_sum(p, q), r) == g1_sum(
            p,
            g1_sum(q, r),
        )
    &&& forall|k: nat| #[trigger] g1_scaled(None, k) == None::<(nat, nat)>
    &&& forall|p: G1Value, q: G1Value, k: nat|
        g1_valid(p) && g1_valid(q) ==> #[trigger] g1_scaled(g1_sum(p, q), k) == g1_sum(
            g1_scaled(p, k),
            g1_scaled(q, k),
        )
    &&& forall|p: G1Value, a: nat, k: nat|
        g1_valid(p) ==> #[trigger] g1_scaled(g1_scaled(p, a), k) == g1_scaled(
            p,
            (k * a) % fr_modulus(),
        )
}

/// Under the module laws, the part of a combination that depends on the
/// inputs is a point of the group, and the combination is the constant term
/// plus that part. The list of bases may be longer than the inputs need.
pub proof fn lemma_combination_splits_under_module_laws(ic: Seq<G1Value>, inputs: Seq<nat>)
    requires
        g1_module_laws(),
        ic.len() >= inputs.len() + 1,
        forall|i: int| 0 <= i < ic.len() ==> g1_valid(#[trigger] ic[i]),
    ensures
        g1_valid(weighted_sum(ic, inputs)),
        combination(ic, inputs) == g1_sum(ic[0], weighted_sum(ic, inputs)),
    decreases inputs.len(),
{
    if inputs.len() == 0 {
        assert(g1_sum(ic[0], None) == ic[0]);
    } else {
        let rest = inputs.drop_last();
        let n = inputs.len() as int;
        lemma_combination_splits_under_module_laws(ic, rest);
        let term = g1_scaled(ic[n], inputs.last());
        assert(g1_valid(ic[n]));
        assert(g1_valid(term));
        assert(g1_valid(ic[0]));
        assert(g1_sum(g1_sum(ic[0], weighted_sum(ic, rest)), term) == g1_sum(
            ic[0],
            g1_sum(weighted_sum(ic, rest), term),
        ));
    }
}

/// Under the module laws, multiplying every input by `k` multiplies the part
/// of a combination that depends on the inputs by `k`.
pub proof fn lemma_weighted_sum_scales_under_module_laws(
    ic: Seq<G1Value>,
    inputs: Seq<nat>,
    k: nat,
)
    requires
        g1_module_laws(),
        ic.len() >= inputs.len() + 1,
        forall|i: int| 0 <= i < ic.len() ==> g1_valid(#[trigger] ic[i]),
    ensures
        weighted_sum(ic, scaled_inputs(inputs, k)) == g1_scaled(weighted_sum(ic, inputs), k),
    decreases inputs.len(),
{
    let scaled = scaled_inputs(inputs, k);
    if inputs.len() == 0 {
        assert(g1_scaled(None, k) == None::<(nat, nat)>);
    } else {
        let rest = inputs.drop_last();
        let n = inputs.len() as int;
        assert(scaled.drop_last() =~= scaled_inputs(rest, k));
        assert(scaled.last() == (k * inputs.last()) % fr_modulus());
        lemma_weighted_sum_scales_under_module_laws(ic, rest, k);
        lemma_combination_splits_under_module_laws(ic, rest);
        let part = weighted_sum(ic, rest);
        let term = g1_scaled(ic[n], inputs.last());
        assert(g1_valid(ic[n]));
        assert(g1_valid(term));
        assert(g1_scaled(g1_scaled(ic[n], inputs.last()), k) == g1_scaled(ic[n], scaled.last()));
        assert(g1_scaled(g1_sum(part, term), k) == g1_sum(
            g1_scaled(part, k),
            g1_scaled(term, k),
        ));
    }
}

/// The scaling of a combination, under the module laws: where every public
/// input is multiplied by `k`, the part of the combination beside the
/// constant term is multiplied by `k`,
/// `combine(k * inputs) = ic[0] + k * (combine(inputs) - ic[0])`.
///
/// The part beside the constant term is [`weighted_sum`]: by the first
/// clause it is what is added to `ic[0]` in `combine(inputs)`.
pub proof fn lemma_combination_scales_under_module_laws(
    ic: Seq<G1Value>,
    inputs: Seq<nat>,
    k: nat,
)
    requires
        g1_module_laws(),
        ic.len() == inputs.len() + 1,
        forall|i: int| 0 <= i < ic.len() ==> g1_valid(#[trigger] ic[i]),
    ensures
        combination(ic, inputs) == g1_sum(ic[0], weighted_sum(ic, inputs)),
        combination(ic, scaled_inputs(inputs, k)) == g1_sum(
            ic[0],
            g1_scaled(weighted_sum(ic, inputs), k),
        ),
{
    lemma_combination_splits_under_module_laws(ic, inputs);
    lemma_combination_splits_under_module_laws(ic, scaled_inputs(inputs, k));
    lemma_weighted_sum_scales_under_module_laws(ic, inputs, k);
}

} // verus!
