use ark_ec::{AffineCurve, PairingEngine, ProjectiveCurve};
use ark_ff::{One, PrimeField};
use ark_relations::r1cs::{
    ConstraintSynthesizer, ConstraintSystemRef, LinearCombination, SynthesisError,
};
use circom_verifier::artifacts::{
    CircuitProof, CircuitPublicParams, CircuitVerifyingKey, Curve, Protocol, RawCircuitProof,
    RawPublicParams, RawVerificationKey,
};
use circom_verifier::error::{DecodeError, VerifierError, VerifyError};
use circom_verifier::field::{fr_from_str, Fq, Fq2, Fr};
use circom_verifier::groth16::{check_equation, combine, run_verifier, verify};
use circom_verifier::pairing::{pairing_product, products_agree};
use circom_verifier::point::{g1_from_str, g2_from_str, G1Point, G2Point};
use num_bigint::BigUint;

type ArkG1 = ark_bn254::G1Affine;
type ArkG2 = ark_bn254::G2Affine;

fn dec(x: &ark_bn254::Fq) -> String {
    let n: BigUint = (*x).into();
    n.to_string()
}

fn strings(items: &[&str]) -> Vec<String> {
    items.iter().map(|s| s.to_string()).collect()
}

fn g1_triple(p: &ArkG1) -> Vec<String> {
    if p.infinity {
        strings(&["0", "1", "0"])
    } else {
        vec![dec(&p.x), dec(&p.y), "1".to_string()]
    }
}

fn g2_triple(p: &ArkG2) -> Vec<Vec<String>> {
    if p.infinity {
        vec![strings(&["0", "0"]), strings(&["1", "0"]), strings(&["0", "0"])]
    } else {
        vec![
            vec![dec(&p.x.c0), dec(&p.x.c1)],
            vec![dec(&p.y.c0), dec(&p.y.c1)],
            strings(&["1", "0"]),
        ]
    }
}

fn g1(k: u64) -> ArkG1 {
    ArkG1::prime_subgroup_generator().mul(k).into_affine()
}

fn g2(k: u64) -> ArkG2 {
    ArkG2::prime_subgroup_generator().mul(k).into_affine()
}

fn our_g1(p: &ArkG1) -> G1Point {
    g1_from_str(&g1_triple(p)).unwrap()
}

fn our_g2(p: &ArkG2) -> G2Point {
    g2_from_str(&g2_triple(p)).unwrap()
}

fn their_g1(p: &G1Point) -> ArkG1 {
    let f = |e: Fq| ark_bn254::Fq::from_repr(ark_ff::BigInteger256(e.to_limbs())).unwrap();
    ArkG1::new(f(p.x()), f(p.y()), p.is_identity())
}

/// A key, a proof and an input that satisfy the pairing equation, made from
/// known multiples of the generators. In the exponent:
/// 2 * 337 = 2 * 3 + (11 + 9 * 13) * 5 + 4 * 7.
struct Sample {
    alpha: ArkG1,
    beta: ArkG2,
    gamma: ArkG2,
    delta: ArkG2,
    ic: Vec<ArkG1>,
    a: ArkG1,
    b: ArkG2,
    c: ArkG1,
}

fn sample() -> Sample {
    Sample {
        alpha: g1(2),
        beta: g2(3),
        gamma: g2(5),
        delta: g2(7),
        ic: vec![g1(11), g1(13)],
        a: g1(2),
        b: g2(337),
        c: g1(4),
    }
}

fn raw_proof(s: &Sample) -> RawCircuitProof {
    RawCircuitProof {
        pi_a: g1_triple(&s.a),
        pi_b: g2_triple(&s.b),
        pi_c: g1_triple(&s.c),
        protocol: "groth16".to_string(),
        curve: "bn128".to_string(),
    }
}

fn raw_key(s: &Sample) -> RawVerificationKey {
    RawVerificationKey {
        protocol: "groth16".to_string(),
        curve: "bn128".to_string(),
        num_public: (s.ic.len() - 1) as u64,
        vk_alpha_1: g1_triple(&s.alpha),
        vk_beta_2: g2_triple(&s.beta),
        vk_gamma_2: g2_triple(&s.gamma),
        vk_delta_2: g2_triple(&s.delta),
        vk_alphabeta_12: Vec::new(),
        ic: s.ic.iter().map(g1_triple).collect(),
    }
}

fn raw_inputs(values: &[&str]) -> RawPublicParams {
    RawPublicParams { raw_public_params: strings(values) }
}

fn proof_document(s: &Sample) -> String {
    format!(
        "{{\"pi_a\": {}, \"pi_b\": {}, \"pi_c\": {}, \"protocol\": \"groth16\", \"curve\": \"bn128\"}}",
        serde_json::to_string(&g1_triple(&s.a)).unwrap(),
        serde_json::to_string(&g2_triple(&s.b)).unwrap(),
        serde_json::to_string(&g1_triple(&s.c)).unwrap(),
    )
}

fn key_document(s: &Sample) -> String {
    let ic: Vec<Vec<String>> = s.ic.iter().map(g1_triple).collect();
    format!(
        "{{\"protocol\": \"groth16\", \"curve\": \"bn128\", \"nPublic\": {}, \"vk_alpha_1\": {}, \
         \"vk_beta_2\": {}, \"vk_gamma_2\": {}, \"vk_delta_2\": {}, \"vk_alphabeta_12\": [], \
         \"IC\": {}}}",
        s.ic.len() - 1,
        serde_json::to_string(&g1_triple(&s.alpha)).unwrap(),
        serde_json::to_string(&g2_triple(&s.beta)).unwrap(),
        serde_json::to_string(&g2_triple(&s.gamma)).unwrap(),
        serde_json::to_string(&g2_triple(&s.delta)).unwrap(),
        serde_json::to_string(&ic).unwrap(),
    )
}

fn member<T: serde::de::DeserializeOwned>(doc: &serde_json::Value, key: &str) -> T {
    serde_json::from_value(doc.get(key).expect("Unable to parse").clone()).expect("Unable to parse")
}

fn inputs_from_json(text: &str) -> RawPublicParams {
    let doc: serde_json::Value = serde_json::from_str(text).expect("Unable to parse");
    RawPublicParams { raw_public_params: member(&doc, "inputs") }
}

fn proof_from_json(text: &str) -> RawCircuitProof {
    let doc: serde_json::Value = serde_json::from_str(text).expect("Unable to parse");
    RawCircuitProof {
        pi_a: member(&doc, "pi_a"),
        pi_b: member(&doc, "pi_b"),
        pi_c: member(&doc, "pi_c"),
        protocol: member(&doc, "protocol"),
        curve: member(&doc, "curve"),
    }
}

fn key_from_json(text: &str) -> RawVerificationKey {
    let doc: serde_json::Value = serde_json::from_str(text).expect("Unable to parse");
    RawVerificationKey {
        protocol: member(&doc, "protocol"),
        curve: member(&doc, "curve"),
        num_public: member(&doc, "nPublic"),
        vk_alpha_1: member(&doc, "vk_alpha_1"),
        vk_beta_2: member(&doc, "vk_beta_2"),
        vk_gamma_2: member(&doc, "vk_gamma_2"),
        vk_delta_2: member(&doc, "vk_delta_2"),
        vk_alphabeta_12: member(&doc, "vk_alphabeta_12"),
        ic: member(&doc, "IC"),
    }
}

fn decoded(s: &Sample, inputs: &[&str]) -> (CircuitVerifyingKey, CircuitProof, CircuitPublicParams) {
    (
        CircuitVerifyingKey::read_input_from_json(&raw_key(s)).unwrap(),
        CircuitProof::read_input_from_json(&raw_proof(s)).unwrap(),
        CircuitPublicParams::read_input_from_json(&raw_inputs(inputs)).unwrap(),
    )
}

fn groth16_says(s: &Sample, inputs: &[u64]) -> bool {
    let vk = ark_groth16::VerifyingKey::<ark_bn254::Bn254> {
        alpha_g1: s.alpha,
        beta_g2: s.beta,
        gamma_g2: s.gamma,
        delta_g2: s.delta,
        gamma_abc_g1: s.ic.clone(),
    };
    let proof = ark_groth16::Proof::<ark_bn254::Bn254> { a: s.a, b: s.b, c: s.c };
    let pvk = ark_groth16::prepare_verifying_key(&vk);
    let inputs: Vec<ark_bn254::Fr> = inputs.iter().map(|v| ark_bn254::Fr::from(*v)).collect();
    ark_groth16::verify_proof(&pvk, &proof, &inputs).unwrap()
}

#[test]
fn test_read_public_input_from_json() {
    let input_str = "{\"inputs\": [\"33\"]}";
    let res = CircuitPublicParams::read_input_from_json(&inputs_from_json(input_str)).unwrap();
    let expected_params = vec![ark_bn254::Fr::from(33)];
    assert!(res.len() == expected_params.len());
    assert!(res.get(0).unwrap().to_limbs() == expected_params[0].into_repr().0);
    assert!(res == CircuitPublicParams::new(vec![Fr::from_u64(33)]));
}

#[test]
fn test_read_proof_from_json() {
    let input_str = proof_document(&sample());
    let params = proof_from_json(&input_str);
    let res = CircuitProof::read_input_from_json(&params).unwrap();
    let pi_a_x_json = params.pi_a[0].parse::<BigUint>().unwrap();
    let pi_a_x_str = their_g1(&res.a()).x.to_string();
    let pi_a_x = pi_a_x_str.trim_start_matches("Fp256 \"(0").trim_end_matches(")\"");
    let pi_a_x_json_hex = format!("{:X}", pi_a_x_json);
    assert!(pi_a_x == pi_a_x_json_hex);
    assert_eq!(their_g1(&res.a()), sample().a);
    assert_eq!(their_g1(&res.c()), sample().c);
    assert_eq!(res.b(), our_g2(&sample().b));
    assert_eq!(res.protocol(), Protocol::Groth16);
    assert_eq!(res.curve(), Curve::Bn128);
}

#[test]
fn test_read_verification_key_from_json() {
    let s = sample();
    let res = run_verifier(
        &inputs_from_json("{\"inputs\": [\"9\"]}"),
        &proof_from_json(&proof_document(&s)),
        &key_from_json(&key_document(&s)),
    );
    assert!(res == Ok(true));
}

#[test]
fn verifying_key_is_read_in_full() {
    let s = sample();
    let vk = CircuitVerifyingKey::read_input_from_json(&raw_key(&s)).unwrap();
    assert_eq!(their_g1(&vk.alpha_g1()), s.alpha);
    assert_eq!(vk.beta_g2(), our_g2(&s.beta));
    assert_eq!(vk.gamma_g2(), our_g2(&s.gamma));
    assert_eq!(vk.delta_g2(), our_g2(&s.delta));
    assert_eq!(vk.ic_len(), 2);
    assert_eq!(their_g1(&vk.ic(0).unwrap()), s.ic[0]);
    assert_eq!(their_g1(&vk.ic(1).unwrap()), s.ic[1]);
    assert_eq!(vk.ic(2), None);
    assert_eq!(vk.protocol(), Protocol::Groth16);
    assert_eq!(vk.curve(), Curve::Bn128);
    let same = CircuitVerifyingKey::new(
        our_g1(&s.alpha),
        our_g2(&s.beta),
        our_g2(&s.gamma),
        our_g2(&s.delta),
        vec![our_g1(&s.ic[0]), our_g1(&s.ic[1])],
    );
    assert_eq!(vk, same);
}

#[test]
fn public_inputs_keep_their_order() {
    let inputs =
        CircuitPublicParams::read_input_from_json(&raw_inputs(&["3", "1", "2"])).unwrap();
    assert_eq!(inputs.len(), 3);
    assert_eq!(inputs.get(0), Some(Fr::from_u64(3)));
    assert_eq!(inputs.get(1), Some(Fr::from_u64(1)));
    assert_eq!(inputs.get(2), Some(Fr::from_u64(2)));
    assert_eq!(inputs.get(3), None);
    let none = CircuitPublicParams::read_input_from_json(&raw_inputs(&[])).unwrap();
    assert_eq!(none.len(), 0);
}

#[test]
fn public_inputs_must_be_canonical_numerals() {
    let r = "21888242871839275222246405745257275088548364400416034343698204186575808495617";
    for bad in ["", "x", "-3", "03", r] {
        assert_eq!(
            CircuitPublicParams::read_input_from_json(&raw_inputs(&["1", bad, "2"])),
            Err(DecodeError::InvalidNumeral),
            "{:?}",
            bad
        );
    }
}

#[test]
fn proof_with_another_protocol_tag_is_refused() {
    let mut raw = raw_proof(&sample());
    raw.protocol = "plonk".to_string();
    assert_eq!(CircuitProof::read_input_from_json(&raw), Err(DecodeError::UnsupportedProtocol));
    raw.protocol = "Groth16".to_string();
    assert_eq!(CircuitProof::read_input_from_json(&raw), Err(DecodeError::UnsupportedProtocol));
    raw.protocol = "".to_string();
    assert_eq!(CircuitProof::read_input_from_json(&raw), Err(DecodeError::UnsupportedProtocol));
}

#[test]
fn proof_with_another_curve_tag_is_refused() {
    let mut raw = raw_proof(&sample());
    raw.curve = "bls12381".to_string();
    assert_eq!(CircuitProof::read_input_from_json(&raw), Err(DecodeError::UnsupportedCurve));
    // the protocol tag is looked at first
    raw.protocol = "plonk".to_string();
    assert_eq!(CircuitProof::read_input_from_json(&raw), Err(DecodeError::UnsupportedProtocol));
}

#[test]
fn proof_errors_come_in_the_order_of_the_points() {
    let good = raw_proof(&sample());
    let mut raw = good.clone();
    raw.pi_c = strings(&["1", "3", "1"]);
    assert_eq!(CircuitProof::read_input_from_json(&raw), Err(DecodeError::PointNotOnCurve));
    raw.pi_b[0][0] = "zz".to_string();
    assert_eq!(CircuitProof::read_input_from_json(&raw), Err(DecodeError::InvalidNumeral));
    raw.pi_a = strings(&["1", "2", "0"]);
    assert_eq!(CircuitProof::read_input_from_json(&raw), Err(DecodeError::InvalidPoint));
    raw.pi_a = strings(&["1", "2"]);
    assert_eq!(CircuitProof::read_input_from_json(&raw), Err(DecodeError::MalformedJson));
    raw.curve = "other".to_string();
    assert_eq!(CircuitProof::read_input_from_json(&raw), Err(DecodeError::UnsupportedCurve));
}

#[test]
fn key_with_another_protocol_tag_is_refused_before_its_points_are_read() {
    let mut raw = raw_key(&sample());
    raw.protocol = "plonk".to_string();
    assert_eq!(
        CircuitVerifyingKey::read_input_from_json(&raw),
        Err(DecodeError::UnsupportedProtocol)
    );
    // whatever the points hold
    raw.vk_alpha_1 = strings(&["not", "a", "point"]);
    raw.vk_beta_2 = Vec::new();
    raw.ic = Vec::new();
    assert_eq!(
        CircuitVerifyingKey::read_input_from_json(&raw),
        Err(DecodeError::UnsupportedProtocol)
    );
}

#[test]
fn key_with_another_curve_tag_is_refused() {
    let mut raw = raw_key(&sample());
    raw.curve = "bn254x".to_string();
    assert_eq!(CircuitVerifyingKey::read_input_from_json(&raw), Err(DecodeError::UnsupportedCurve));
}

#[test]
fn key_must_hold_one_more_base_than_public_inputs() {
    let good = raw_key(&sample());
    for declared in [0u64, 2, 3, u64::MAX] {
        let mut raw = good.clone();
        raw.num_public = declared;
        assert_eq!(
            CircuitVerifyingKey::read_input_from_json(&raw),
            Err(DecodeError::InconsistentIcLength),
            "{}",
            declared
        );
    }
    let mut raw = good.clone();
    raw.ic.pop();
    assert_eq!(
        CircuitVerifyingKey::read_input_from_json(&raw),
        Err(DecodeError::InconsistentIcLength)
    );
    raw.num_public = 0;
    assert!(CircuitVerifyingKey::read_input_from_json(&raw).is_ok());
    let mut raw = good.clone();
    raw.ic.clear();
    raw.num_public = 0;
    assert_eq!(
        CircuitVerifyingKey::read_input_from_json(&raw),
        Err(DecodeError::InconsistentIcLength)
    );
    // the count is looked at before the points
    let mut raw = good.clone();
    raw.num_public = 5;
    raw.vk_alpha_1 = strings(&["1", "3", "1"]);
    assert_eq!(
        CircuitVerifyingKey::read_input_from_json(&raw),
        Err(DecodeError::InconsistentIcLength)
    );
}

#[test]
fn key_errors_come_in_the_order_of_the_points() {
    let good = raw_key(&sample());
    let mut raw = good.clone();
    raw.ic[1] = strings(&["1", "2", "0"]);
    assert_eq!(CircuitVerifyingKey::read_input_from_json(&raw), Err(DecodeError::InvalidPoint));
    raw.ic[0] = strings(&["1", "3", "1"]);
    assert_eq!(CircuitVerifyingKey::read_input_from_json(&raw), Err(DecodeError::PointNotOnCurve));
    raw.vk_delta_2[2] = strings(&["1"]);
    assert_eq!(CircuitVerifyingKey::read_input_from_json(&raw), Err(DecodeError::MalformedJson));
    raw.vk_gamma_2[1][1] = "".to_string();
    assert_eq!(CircuitVerifyingKey::read_input_from_json(&raw), Err(DecodeError::InvalidNumeral));
    raw.vk_beta_2 = g2_triple(&g2(1));
    raw.vk_beta_2[2] = strings(&["0", "0"]);
    assert_eq!(CircuitVerifyingKey::read_input_from_json(&raw), Err(DecodeError::InvalidPoint));
    raw.vk_alpha_1 = strings(&["5", "5", "1"]);
    assert_eq!(CircuitVerifyingKey::read_input_from_json(&raw), Err(DecodeError::PointNotOnCurve));
}

#[test]
fn key_ignores_the_precomputed_pairing() {
    let mut raw = raw_key(&sample());
    raw.vk_alphabeta_12 = vec![vec![strings(&["anything", "at all"])]];
    let with = CircuitVerifyingKey::read_input_from_json(&raw).unwrap();
    let without = CircuitVerifyingKey::read_input_from_json(&raw_key(&sample())).unwrap();
    assert_eq!(with, without);
}

#[test]
fn combine_is_the_weighted_sum_of_the_bases() {
    let s = sample();
    let (vk, _, inputs) = decoded(&s, &["9"]);
    // 11 + 9 * 13 = 128
    let point = combine(&vk, &inputs).unwrap();
    assert_eq!(their_g1(&point), g1(128));
    assert_eq!(point, our_g1(&g1(128)));
    // with the input zero only the constant term is left
    let (_, _, zero) = decoded(&s, &["0"]);
    assert_eq!(their_g1(&combine(&vk, &zero).unwrap()), s.ic[0]);
}

#[test]
fn combine_takes_the_inputs_in_their_order() {
    let mut s = sample();
    s.ic = vec![g1(1), g1(10), g1(100), g1(1000)];
    let vk = CircuitVerifyingKey::read_input_from_json(&raw_key(&s)).unwrap();
    let inputs = CircuitPublicParams::new(vec![Fr::from_u64(2), Fr::from_u64(3), Fr::from_u64(4)]);
    assert_eq!(their_g1(&combine(&vk, &inputs).unwrap()), g1(1 + 20 + 300 + 4000));
    let inputs = CircuitPublicParams::new(vec![Fr::from_u64(4), Fr::from_u64(3), Fr::from_u64(2)]);
    assert_eq!(their_g1(&combine(&vk, &inputs).unwrap()), g1(1 + 40 + 300 + 2000));
}

#[test]
fn combine_without_inputs_is_the_constant_term() {
    let mut s = sample();
    s.ic = vec![g1(11)];
    let vk = CircuitVerifyingKey::read_input_from_json(&raw_key(&s)).unwrap();
    let inputs = CircuitPublicParams::new(Vec::new());
    assert_eq!(their_g1(&combine(&vk, &inputs).unwrap()), g1(11));
}

#[test]
fn combine_refuses_a_wrong_number_of_inputs() {
    let s = sample();
    let vk = CircuitVerifyingKey::read_input_from_json(&raw_key(&s)).unwrap();
    for values in [vec![], vec!["9", "0"], vec!["9", "1", "2"]] {
        let inputs = CircuitPublicParams::read_input_from_json(&raw_inputs(&values)).unwrap();
        assert_eq!(combine(&vk, &inputs), Err(VerifyError::PublicInputCountMismatch));
    }
    let empty = CircuitVerifyingKey::new(
        our_g1(&s.alpha),
        our_g2(&s.beta),
        our_g2(&s.gamma),
        our_g2(&s.delta),
        Vec::new(),
    );
    let none = CircuitPublicParams::new(Vec::new());
    assert_eq!(combine(&empty, &none), Err(VerifyError::PublicInputCountMismatch));
    assert_eq!(
        verify(&empty, &CircuitProof::new(our_g1(&s.a), our_g2(&s.b), our_g1(&s.c)), &none),
        Err(VerifyError::PublicInputCountMismatch)
    );
}

#[test]
fn combine_scales_with_its_inputs() {
    // combine(k * inputs) = k * (combine(inputs) - ic[0]) + ic[0]
    let mut s = sample();
    s.ic = vec![g1(11), g1(13), g1(17)];
    let vk = CircuitVerifyingKey::read_input_from_json(&raw_key(&s)).unwrap();
    let k = ark_bn254::Fr::from(123456789u64);
    let inputs = [ark_bn254::Fr::from(2u64), -ark_bn254::Fr::from(3u64)];
    let ours = |values: &[ark_bn254::Fr]| {
        let elements = values.iter().map(|v| Fr::from_limbs(v.into_repr().0).unwrap()).collect();
        their_g1(&combine(&vk, &CircuitPublicParams::new(elements)).unwrap())
    };
    let plain = ours(&inputs);
    let scaled = ours(&[inputs[0] * k, inputs[1] * k]);
    let without_constant = plain.into_projective() - s.ic[0].into_projective();
    let expected = (without_constant.into_affine().mul(k.into_repr()) + s.ic[0].into_projective())
        .into_affine();
    assert_eq!(scaled, expected);
}

#[test]
fn a_good_proof_is_accepted() {
    let s = sample();
    let (vk, proof, inputs) = decoded(&s, &["9"]);
    assert_eq!(verify(&vk, &proof, &inputs), Ok(true));
    assert!(groth16_says(&s, &[9]));
    assert_eq!(run_verifier(&raw_inputs(&["9"]), &raw_proof(&s), &raw_key(&s)), Ok(true));
}

#[test]
fn verification_gives_the_same_verdict_each_time() {
    let s = sample();
    let (vk, proof, inputs) = decoded(&s, &["9"]);
    assert_eq!(verify(&vk, &proof, &inputs), verify(&vk, &proof, &inputs));
    let (vk2, proof2, inputs2) = decoded(&s, &["9"]);
    assert_eq!(verify(&vk, &proof, &inputs), verify(&vk2, &proof2, &inputs2));
    let (_, _, other) = decoded(&s, &["8"]);
    assert_eq!(verify(&vk, &proof, &other), verify(&vk2, &proof2, &other));
    assert_eq!(verify(&vk, &proof, &other), Ok(false));
}

#[test]
fn another_input_is_rejected() {
    let s = sample();
    for value in ["0", "1", "8", "10"] {
        let (vk, proof, inputs) = decoded(&s, &[value]);
        assert_eq!(verify(&vk, &proof, &inputs), Ok(false), "{}", value);
    }
    assert!(!groth16_says(&s, &[8]));
}

#[test]
fn a_changed_proof_is_rejected() {
    let good = sample();
    let changes: Vec<Box<dyn Fn(&mut Sample)>> = vec![
        Box::new(|s| s.a = g1(3)),
        Box::new(|s| s.a = -s.a),
        Box::new(|s| s.b = g2(336)),
        Box::new(|s| s.c = g1(5)),
        Box::new(|s| s.c = ArkG1::default()),
        Box::new(|s| s.a = ArkG1::default()),
        Box::new(|s| s.alpha = g1(1)),
        Box::new(|s| s.beta = g2(4)),
        Box::new(|s| s.gamma = g2(6)),
        Box::new(|s| s.delta = g2(8)),
        Box::new(|s| s.ic[0] = g1(12)),
        Box::new(|s| s.ic[1] = g1(14)),
    ];
    for (i, change) in changes.iter().enumerate() {
        let mut s = sample();
        change(&mut s);
        let (vk, proof, inputs) = decoded(&s, &["9"]);
        assert_eq!(verify(&vk, &proof, &inputs), Ok(false), "change {}", i);
        assert!(!groth16_says(&s, &[9]), "change {}", i);
    }
    let (vk, proof, inputs) = decoded(&good, &["9"]);
    assert_eq!(verify(&vk, &proof, &inputs), Ok(true));
}

#[test]
fn a_flipped_bit_in_a_coordinate_never_verifies() {
    let s = sample();
    let x: BigUint = s.a.x.into();
    let q: BigUint = ark_bn254::Fq::from(-1i64).into();
    let mut rejected_at_decoding = 0;
    for bit in 0..254u64 {
        let flipped = x.clone() ^ (BigUint::one() << bit);
        let mut raw = raw_proof(&s);
        raw.pi_a[0] = flipped.to_string();
        let outcome = run_verifier(&raw_inputs(&["9"]), &raw, &raw_key(&s));
        if flipped > q {
            assert_eq!(outcome, Err(VerifierError::Decode(DecodeError::InvalidNumeral)));
        } else {
            // the second coordinate no longer fits the first
            assert_eq!(outcome, Err(VerifierError::Decode(DecodeError::PointNotOnCurve)));
        }
        assert_ne!(outcome, Ok(true));
        rejected_at_decoding += 1;
    }
    assert_eq!(rejected_at_decoding, 254);
}

#[test]
fn run_verifier_tells_decoding_failures_from_rejection() {
    let s = sample();
    let key = raw_key(&s);
    let proof = raw_proof(&s);
    assert_eq!(run_verifier(&raw_inputs(&["9"]), &proof, &key), Ok(true));
    assert_eq!(run_verifier(&raw_inputs(&["8"]), &proof, &key), Ok(false));
    assert_eq!(
        run_verifier(&raw_inputs(&["nine"]), &proof, &key),
        Err(VerifierError::Decode(DecodeError::InvalidNumeral))
    );
    assert_eq!(
        run_verifier(&raw_inputs(&["9", "9"]), &proof, &key),
        Err(VerifierError::Verify(VerifyError::PublicInputCountMismatch))
    );
    assert_eq!(
        run_verifier(&raw_inputs(&[]), &proof, &key),
        Err(VerifierError::Verify(VerifyError::PublicInputCountMismatch))
    );
    let mut bad_key = key.clone();
    bad_key.protocol = "fflonk".to_string();
    assert_eq!(
        run_verifier(&raw_inputs(&["9"]), &proof, &bad_key),
        Err(VerifierError::Decode(DecodeError::UnsupportedProtocol))
    );
    let mut bad_proof = proof.clone();
    bad_proof.curve = "bls12381".to_string();
    assert_eq!(
        run_verifier(&raw_inputs(&["9"]), &bad_proof, &key),
        Err(VerifierError::Decode(DecodeError::UnsupportedCurve))
    );
    // the inputs are decoded first, then the proof, then the key
    assert_eq!(
        run_verifier(&raw_inputs(&["9"]), &bad_proof, &bad_key),
        Err(VerifierError::Decode(DecodeError::UnsupportedCurve))
    );
    assert_eq!(
        run_verifier(&raw_inputs(&["?"]), &bad_proof, &bad_key),
        Err(VerifierError::Decode(DecodeError::InvalidNumeral))
    );
    let mut short_key = key.clone();
    short_key.num_public = 7;
    assert_eq!(
        run_verifier(&raw_inputs(&["9"]), &proof, &short_key),
        Err(VerifierError::Decode(DecodeError::InconsistentIcLength))
    );
}

#[test]
fn check_equation_takes_the_input_point_as_it_is() {
    let s = sample();
    let (vk, proof, _) = decoded(&s, &["9"]);
    assert!(check_equation(&vk, &proof, &our_g1(&g1(128))));
    assert!(!check_equation(&vk, &proof, &our_g1(&g1(127))));
    assert!(!check_equation(&vk, &proof, &G1Point::identity()));
}

#[test]
fn pairing_product_is_the_pairing_of_the_curve_library() {
    let pairs = vec![(our_g1(&g1(2)), our_g2(&g2(3)))];
    let ours = pairing_product(&pairs).unwrap();
    let theirs = ark_bn254::Bn254::pairing(g1(2), g2(3));
    let coeffs: Vec<ark_bn254::Fq> = ark_ff::ToConstraintField::to_field_elements(&theirs).unwrap();
    assert_eq!(coeffs.len(), 12);
    for (i, c) in coeffs.iter().enumerate() {
        assert_eq!(ours.coefficient(i), Some(c.into_repr().0), "coefficient {}", i);
    }
    assert_eq!(ours.coefficient(12), None);
}

#[test]
fn pairing_product_is_bilinear_on_samples() {
    let left = pairing_product(&vec![(our_g1(&g1(6)), our_g2(&g2(1)))]);
    let right = pairing_product(&vec![(our_g1(&g1(2)), our_g2(&g2(3)))]);
    assert!(products_agree(&left, &right));
    let split = pairing_product(&vec![
        (our_g1(&g1(1)), our_g2(&g2(1))),
        (our_g1(&g1(5)), our_g2(&g2(1))),
    ]);
    assert!(products_agree(&left, &split));
    let other = pairing_product(&vec![(our_g1(&g1(7)), our_g2(&g2(1)))]);
    assert!(!products_agree(&left, &other));
    assert!(left.unwrap().same(&right.unwrap()));
}

#[test]
fn pairing_product_of_nothing_is_one() {
    let one = pairing_product(&Vec::new()).unwrap();
    assert_eq!(one.coefficient(0), Some([1, 0, 0, 0]));
    for i in 1..12 {
        assert_eq!(one.coefficient(i), Some([0, 0, 0, 0]));
    }
    let with_identity = pairing_product(&vec![(G1Point::identity(), our_g2(&g2(3)))]);
    assert!(products_agree(&Some(one), &with_identity));
    assert!(!products_agree(&None, &None));
    assert!(!products_agree(&with_identity, &None));
}

struct Square {
    root: Option<ark_bn254::Fr>,
}

impl ConstraintSynthesizer<ark_bn254::Fr> for Square {
    fn generate_constraints(
        self,
        cs: ConstraintSystemRef<ark_bn254::Fr>,
    ) -> Result<(), SynthesisError> {
        let root = cs.new_witness_variable(|| self.root.ok_or(SynthesisError::AssignmentMissing))?;
        let square = cs.new_input_variable(|| {
            self.root.map(|x| x * x).ok_or(SynthesisError::AssignmentMissing)
        })?;
        cs.enforce_constraint(
            LinearCombination::from(root),
            LinearCombination::from(root),
            LinearCombination::from(square),
        )?;
        Ok(())
    }
}

#[test]
fn a_proof_of_a_square_root_of_nine_is_accepted() {
    let mut rng = ark_std::test_rng();
    let params = ark_groth16::generate_random_parameters::<ark_bn254::Bn254, _, _>(
        Square { root: None },
        &mut rng,
    )
    .unwrap();
    let proof = ark_groth16::create_random_proof(
        Square { root: Some(ark_bn254::Fr::from(3u64)) },
        &params,
        &mut rng,
    )
    .unwrap();
    let s = Sample {
        alpha: params.vk.alpha_g1,
        beta: params.vk.beta_g2,
        gamma: params.vk.gamma_g2,
        delta: params.vk.delta_g2,
        ic: params.vk.gamma_abc_g1.clone(),
        a: proof.a,
        b: proof.b,
        c: proof.c,
    };
    assert!(groth16_says(&s, &[9]));
    assert_eq!(run_verifier(&raw_inputs(&["9"]), &raw_proof(&s), &raw_key(&s)), Ok(true));
    assert_eq!(run_verifier(&raw_inputs(&["10"]), &raw_proof(&s), &raw_key(&s)), Ok(false));
    assert_eq!(run_verifier(&raw_inputs(&["16"]), &raw_proof(&s), &raw_key(&s)), Ok(false));
    let mut tampered = Sample { a: (s.a.into_projective() + s.ic[0].into_projective()).into_affine(), ..s };
    assert_eq!(
        run_verifier(&raw_inputs(&["9"]), &raw_proof(&tampered), &raw_key(&tampered)),
        Ok(false)
    );
    tampered.a = proof.a;
    assert_eq!(
        run_verifier(&raw_inputs(&["9"]), &raw_proof(&tampered), &raw_key(&tampered)),
        Ok(true)
    );
}

#[test]
fn elements_and_points_made_by_hand() {
    let two = fr_from_str("2".to_string()).unwrap();
    assert_eq!(G1Point::generator().scaled_by(&two), our_g1(&g1(2)));
    let g = ArkG2::prime_subgroup_generator();
    let f = |x: &ark_bn254::Fq| Fq::from_limbs(x.into_repr().0).unwrap();
    let made =
        G2Point::new(Fq2::new(f(&g.x.c0), f(&g.x.c1)), Fq2::new(f(&g.y.c0), f(&g.y.c1))).unwrap();
    assert_eq!(made, our_g2(&g));
    assert!(ark_bn254::Fq::one().into_repr().0 == Fq::one().to_limbs());
}
