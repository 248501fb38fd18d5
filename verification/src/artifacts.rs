//! The three artifacts of a verification: the public inputs, the proof and
//! the verifying key. Each comes raw, as the strings of its document, and is
//! decoded into field elements and points.

use vstd::prelude::*;
use crate::decimal::{decimal_value, is_numeral};
use crate::error::DecodeError;
use crate::field::{fr_from_str, fr_modulus, Fr};
use crate::point::{
    g1_from_numerals, g1_from_str, g1_valid, g2_from_numerals, g2_from_str, g2_valid, text_rows,
    texts, G1Point, G1Value, G2Point, G2Value,
};

verus! {

/// The public inputs as their document holds them: the member `inputs`, a
/// list of numerals.
#[derive(Clone, Debug, PartialEq, Eq)]
pub struct RawPublicParams {
    pub raw_public_params: Vec<String>,
}

/// A proof as its document holds it: the coordinate triples of the three
/// points and the two tags.
#[derive(Clone, Debug, PartialEq, Eq)]
pub struct RawCircuitProof {
    pub pi_a: Vec<String>,
    pub pi_b: Vec<Vec<String>>,
    pub pi_c: Vec<String>,
    pub protocol: String,
    pub curve: String,
}

/// A verifying key as its document holds it. The member `nPublic` is
/// `num_public`, the member `IC` is `ic`; `vk_alphabeta_12` plays no part in
/// verification.
#[derive(Clone, Debug, PartialEq, Eq)]
pub struct RawVerificationKey {
    pub protocol: String,
    pub curve: String,
    pub num_public: u64,
    pub vk_alpha_1: Vec<String>,
    pub vk_beta_2: Vec<Vec<String>>,
    pub vk_gamma_2: Vec<Vec<String>>,
    pub vk_delta_2: Vec<Vec<String>>,
    pub vk_alphabeta_12: Vec<Vec<Vec<String>>>,
    pub ic: Vec<Vec<String>>,
}

/// The proof systems whose artifacts are decoded.
#[derive(Clone, Copy, Debug, PartialEq, Eq, Structural)]
pub enum Protocol {
    /// The tag `groth16`.
    Groth16,
}

/// The curves whose artifacts are decoded.
#[derive(Clone, Copy, Debug, PartialEq, Eq, Structural)]
pub enum Curve {
    /// The tag `bn128`, the name under which Circom-style tooling knows BN254.
    Bn128,
}

/// Whether the string `s` has the text `expected`.
fn text_is(s: &String, expected: &str) -> (b: bool)
    ensures
        b == (s@ == expected@),
{
    let e: String = expected.to_owned();
    *s == e
}

impl Protocol {
    /// The protocol that `tag` names.
    pub fn from_tag(tag: &String) -> (r: Result<Protocol, DecodeError>)
        ensures
            r is Ok <==> tag@ == "groth16"@,
            r matches Err(e) ==> e == DecodeError::UnsupportedProtocol,
    {
        if text_is(tag, "groth16") {
            Ok(Protocol::Groth16)
        } else {
            Err(DecodeError::UnsupportedProtocol)
        }
    }
}

impl Curve {
    /// The curve that `tag` names.
    pub fn from_tag(tag: &String) -> (r: Result<Curve, DecodeError>)
        ensures
            r is Ok <==> tag@ == "bn128"@,
            r matches Err(e) ==> e == DecodeError::UnsupportedCurve,
    {
        if text_is(tag, "bn128") {
            Ok(Curve::Bn128)
        } else {
            Err(DecodeError::UnsupportedCurve)
        }
    }
}

/// Whether `s` is the numeral of a canonical element of the scalar field.
pub open spec fn is_fr_numeral(s: Seq<char>) -> bool {
    is_numeral(s) && decimal_value(s) < fr_modulus()
}

/// The public inputs that a list of numerals stands for, in its order; every
/// entry has to be the numeral of a canonical element of the scalar field.
pub open spec fn decode_public_inputs(raw: RawPublicParams) -> Result<Seq<nat>, DecodeError> {
    let t = texts(raw.raw_public_params@);
    if forall|i: int| 0 <= i < t.len() ==> is_fr_numeral(#[trigger] t[i]) {
        Ok(t.map_values(|s: Seq<char>| decimal_value(s)))
    } else {
        Err(DecodeError::InvalidNumeral)
    }
}

/// The public inputs of a proof, in their order. The view is the sequence of
/// their canonical numbers.
#[derive(Debug, PartialEq, Eq)]
pub struct CircuitPublicParams {
    public_params: Vec<Fr>,
}

impl View for CircuitPublicParams {
    type V = Seq<nat>;

    closed spec fn view(&self) -> Seq<nat> {
        self.public_params@.map_values(|e: Fr| e@)
    }
}

impl CircuitPublicParams {
    /// Decodes the public inputs of a document.
    pub fn read_input_from_json(raw: &RawPublicParams) -> (r: Result<Self, DecodeError>)
        ensures
            match r {
                Ok(inputs) => decode_public_inputs(*raw) == Ok::<Seq<nat>, DecodeError>(inputs@),
                Err(e) => decode_public_inputs(*raw) == Err::<Seq<nat>, DecodeError>(e),
            },
    {
        let ghost t = texts(raw.raw_public_params@);
        let n: usize = raw.raw_public_params.len();
        let mut values: Vec<Fr> = Vec::new();
        let mut i: usize = 0;
        while i < n
            invariant
                n == raw.raw_public_params@.len(),
                t == texts(raw.raw_public_params@),
                0 <= i <= n,
                values@.len() == i,
                forall|j: int| 0 <= j < i ==> is_fr_numeral(#[trigger] t[j]),
                forall|j: int| 0 <= j < i ==> (#[trigger] values@[j])@ == decimal_value(t[j]),
            decreases n - i,
        {
            match fr_from_str(raw.raw_public_params[i].clone()) {
                Ok(e) => {
                    values.push(e);
                },
                Err(e) => {
                    assert(!is_fr_numeral(t[i as int]));
                    return Err(e);
                },
            }
            i = i + 1;
        }
        let inputs = CircuitPublicParams { public_params: values };
        assert(inputs@ =~= t.map_values(|s: Seq<char>| decimal_value(s)));
        Ok(inputs)
    }

    /// The public inputs `values`.
    pub fn new(values: Vec<Fr>) -> (r: Self)
        ensures
            r@ == values@.map_values(|e: Fr| e@),
    {
        CircuitPublicParams { public_params: values }
    }

    /// The number of public inputs.
    pub fn len(&self) -> (n: usize)
        ensures
            n == self@.len(),
    {
        self.public_params.len()
    }

    /// The public input at position `i`.
    pub fn get(&self, i: usize) -> (r: Option<Fr>)
        ensures
            r is Some <==> i < self@.len(),
            r matches Some(e) ==> e@ == self@[i as int],
    {
        if i < self.public_params.len() {
            Some(self.public_params[i])
        } else {
            None
        }
    }
}

/// A proof as contracts see it: its three points by their views.
pub struct ProofView {
    pub a: G1Value,
    pub b: G2Value,
    pub c: G1Value,
}

/// Whether the three points of a proof are points of their groups.
pub open spec fn proof_valid(proof: ProofView) -> bool {
    g1_valid(proof.a) && g2_valid(proof.b) && g1_valid(proof.c)
}

/// The proof that a raw proof stands for, or the first reason why it stands
/// for none: the protocol tag is looked at first, then the curve tag, then
/// the points `pi_a`, `pi_b` and `pi_c` in this order.
pub open spec fn decode_proof(raw: RawCircuitProof) -> Result<ProofView, DecodeError> {
    if raw.protocol@ != "groth16"@ {
        Err(DecodeError::UnsupportedProtocol)
    } else if raw.curve@ != "bn128"@ {
        Err(DecodeError::UnsupportedCurve)
    } else {
        match g1_from_numerals(texts(raw.pi_a@)) {
            Err(e) => Err(e),
            Ok(a) => match g2_from_numerals(text_rows(raw.pi_b@)) {
                Err(e) => Err(e),
                Ok(b) => match g1_from_numerals(texts(raw.pi_c@)) {
                    Err(e) => Err(e),
                    Ok(c) => Ok(ProofView { a, b, c }),
                },
            },
        }
    }
}

/// A Groth16 proof: three points, together with the tags under which it was
/// declared.
#[derive(Clone, Copy, Debug, PartialEq, Eq)]
pub struct CircuitProof {
    a: G1Point,
    b: G2Point,
    c: G1Point,
    protocol: Protocol,
    curve: Curve,
}

impl View for CircuitProof {
    type V = ProofView;

    closed spec fn view(&self) -> ProofView {
        ProofView { a: self.a@, b: self.b@, c: self.c@ }
    }
}

impl CircuitProof {
    /// Decodes the proof of a document.
    pub fn read_input_from_json(raw: &RawCircuitProof) -> (r: Result<Self, DecodeError>)
        ensures
            match r {
                Ok(proof) => decode_proof(*raw) == Ok::<ProofView, DecodeError>(proof@),
                Err(e) => decode_proof(*raw) == Err::<ProofView, DecodeError>(e),
            },
            r matches Ok(proof) ==> proof_valid(proof@),
    {
        let protocol = match Protocol::from_tag(&raw.protocol) {
            Ok(p) => p,
            Err(e) => {
                return Err(e);
            },
        };
        let curve = match Curve::from_tag(&raw.curve) {
            Ok(c) => c,
            Err(e) => {
                return Err(e);
            },
        };
        let a = match g1_from_str(&raw.pi_a) {
            Ok(p) => p,
            Err(e) => {
                return Err(e);
            },
        };
        let b = match g2_from_str(&raw.pi_b) {
            Ok(p) => p,
            Err(e) => {
                return Err(e);
            },
        };
        let c = match g1_from_str(&raw.pi_c) {
            Ok(p) => p,
            Err(e) => {
                return Err(e);
            },
        };
        Ok(CircuitProof { a, b, c, protocol, curve })
    }

    /// The proof with the points `a`, `b` and `c`.
    pub fn new(a: G1Point, b: G2Point, c: G1Point) -> (r: Self)
        ensures
            r@ == (ProofView { a: a@, b: b@, c: c@ }),
    {
        CircuitProof { a, b, c, protocol: Protocol::Groth16, curve: Curve::Bn128 }
    }

    /// The point `A` of the proof.
    pub fn a(&self) -> (p: G1Point)
        ensures
            p@ == self@.a,
    {
        self.a
    }

    /// The point `B` of the proof.
    pub fn b(&self) -> (p: G2Point)
        ensures
            p@ == self@.b,
    {
        self.b
    }

    /// The point `C` of the proof.
    pub fn c(&self) -> (p: G1Point)
        ensures
            p@ == self@.c,
    {
        self.c
    }

    /// The protocol under which the proof was declared.
    pub fn protocol(&self) -> (p: Protocol)
        ensures
            p == Protocol::Groth16,
    {
        self.protocol
    }

    /// The curve under which the proof was declared.
    pub fn curve(&self) -> (c: Curve)
        ensures
            c == Curve::Bn128,
    {
        self.curve
    }
}

/// A verifying key as contracts see it: its points by their views. The entry
/// 0 of `ic` is the base of the constant term, the entry `i` that of the
/// public input `i - 1`.
pub struct VerifyingKeyView {
    pub alpha: G1Value,
    pub beta: G2Value,
    pub gamma: G2Value,
    pub delta: G2Value,
    pub ic: Seq<G1Value>,
}

/// Whether the points of a verifying key are points of their groups.
pub open spec fn verifying_key_valid(vk: VerifyingKeyView) -> bool {
    &&& g1_valid(vk.alpha)
    &&& g2_valid(vk.beta)
    &&& g2_valid(vk.gamma)
    &&& g2_valid(vk.delta)
    &&& forall|i: int| 0 <= i < vk.ic.len() ==> g1_valid(#[trigger] vk.ic[i])
}

/// The points that a list of coordinate triples stands for, in its order, or
/// the reason why the first triple that stands for none does so.
pub open spec fn g1_list_from_numerals(rows: Seq<Seq<Seq<char>>>) -> Result<
    Seq<G1Value>,
    DecodeError,
>
    decreases rows.len(),
{
    if rows.len() == 0 {
        Ok(Seq::empty())
    } else {
        match g1_list_from_numerals(rows.drop_last()) {
            Err(e) => Err(e),
            Ok(points) => match g1_from_numerals(rows.last()) {
                Err(e) => Err(e),
                Ok(p) => Ok(points.push(p)),
            },
        }
    }
}

/// The verifying key that a raw key stands for, or the first reason why it
/// stands for none: the protocol tag is looked at first, then the curve tag,
/// then the number of input bases, which has to be the declared number of
/// public inputs plus one, then the points `vk_alpha_1`, `vk_beta_2`,
/// `vk_gamma_2`, `vk_delta_2` and those of `IC`, in this order.
pub open spec fn decode_verifying_key(raw: RawVerificationKey) -> Result<
    VerifyingKeyView,
    DecodeError,
> {
    if raw.protocol@ != "groth16"@ {
        Err(DecodeError::UnsupportedProtocol)
    } else if raw.curve@ != "bn128"@ {
        Err(DecodeError::UnsupportedCurve)
    } else if raw.ic@.len() != raw.num_public + 1 {
        Err(DecodeError::InconsistentIcLength)
    } else {
        match g1_from_numerals(texts(raw.vk_alpha_1@)) {
            Err(e) => Err(e),
            Ok(alpha) => match g2_from_numerals(text_rows(raw.vk_beta_2@)) {
                Err(e) => Err(e),
                Ok(beta) => match g2_from_numerals(text_rows(raw.vk_gamma_2@)) {
                    Err(e) => Err(e),
                    Ok(gamma) => match g2_from_numerals(text_rows(raw.vk_delta_2@)) {
                        Err(e) => Err(e),
                        Ok(delta) => match g1_list_from_numerals(text_rows(raw.ic@)) {
                            Err(e) => Err(e),
                            Ok(ic) => Ok(VerifyingKeyView { alpha, beta, gamma, delta, ic }),
                        },
                    },
                },
            },
        }
    }
}

/// The points of a list as contracts see them.
pub open spec fn g1_views(points: Seq<G1Point>) -> Seq<G1Value> {
    points.map_values(|p: G1Point| p@)
}

/// The verifying key of a circuit, together with the tags under which it was
/// declared.
#[derive(Debug, PartialEq, Eq)]
pub struct CircuitVerifyingKey {
    alpha_g1: G1Point,
    beta_g2: G2Point,
    gamma_g2: G2Point,
    delta_g2: G2Point,
    gamma_abc_g1: Vec<G1Point>,
    protocol: Protocol,
    curve: Curve,
}

impl View for CircuitVerifyingKey {
    type V = VerifyingKeyView;

    closed spec fn view(&self) -> VerifyingKeyView {
        VerifyingKeyView {
            alpha: self.alpha_g1@,
            beta: self.beta_g2@,
            gamma: self.gamma_g2@,
            delta: self.delta_g2@,
            ic: g1_views(self.gamma_abc_g1@),
        }
    }
}

/// Reads the points of a list of coordinate triples, in its order.
pub fn g1_list_from_str(rows: &Vec<Vec<String>>) -> (r: Result<Vec<G1Point>, DecodeError>)
    ensures
        match r {
            Ok(points) => g1_list_from_numerals(text_rows(rows@)) == Ok::<
                Seq<G1Value>,
                DecodeError,
            >(g1_views(points@)),
            Err(e) => g1_list_from_numerals(text_rows(rows@)) == Err::<Seq<G1Value>, DecodeError>(
                e,
            ),
        },
        r matches Ok(points) ==> points@.len() == rows@.len(),
        r matches Ok(points) ==> forall|i: int|
            0 <= i < points@.len() ==> g1_valid(#[trigger] g1_views(points@)[i]),
{
    let ghost t = text_rows(rows@);
    let n: usize = rows.len();
    let mut points: Vec<G1Point> = Vec::new();
    let mut i: usize = 0;
    assert(t.take(0) =~= Seq::<Seq<Seq<char>>>::empty());
    assert(g1_views(points@) =~= Seq::<G1Value>::empty());
    while i < n
        invariant
            n == rows@.len(),
            t == text_rows(rows@),
            0 <= i <= n,
            points@.len() == i,
            g1_list_from_numerals(t.take(i as int)) == Ok::<Seq<G1Value>, DecodeError>(
                g1_views(points@),
            ),
            forall|j: int| 0 <= j < i ==> g1_valid(#[trigger] g1_views(points@)[j]),
        decreases n - i,
    {
        let ghost before = g1_views(points@);
        assert(t.take(i + 1).drop_last() =~= t.take(i as int));
        assert(t.take(i + 1).last() == texts(rows@[i as int]@));
        match g1_from_str(&rows[i]) {
            Ok(p) => {
                points.push(p);
                assert(g1_views(points@) =~= before.push(p@));
            },
            Err(e) => {
                proof {
                    lemma_g1_list_error_stays(t, i as int + 1);
                }
                return Err(e);
            },
        }
        i = i + 1;
    }
    assert(t.take(n as int) =~= t);
    Ok(points)
}

/// Once a prefix of a list of coordinate triples fails to decode, the whole
/// list fails with the same reason.
pub proof fn lemma_g1_list_error_stays(rows: Seq<Seq<Seq<char>>>, i: int)
    requires
        0 <= i <= rows.len(),
        g1_list_from_numerals(rows.take(i)) is Err,
    ensures
        g1_list_from_numerals(rows) == g1_list_from_numerals(rows.take(i)),
    decreases rows.len() - i,
{
    if i == rows.len() {
        assert(rows.take(i) =~= rows);
    } else {
        assert(rows.take(i + 1).drop_last() =~= rows.take(i));
        lemma_g1_list_error_stays(rows, i + 1);
    }
}

impl CircuitVerifyingKey {
    /// Decodes the verifying key of a document.
    pub fn read_input_from_json(raw: &RawVerificationKey) -> (r: Result<Self, DecodeError>)
        ensures
            match r {
                Ok(vk) => decode_verifying_key(*raw) == Ok::<VerifyingKeyView, DecodeError>(vk@),
                Err(e) => decode_verifying_key(*raw) == Err::<VerifyingKeyView, DecodeError>(e),
            },
            r matches Ok(vk) ==> vk@.ic.len() == raw.num_public + 1 && verifying_key_valid(vk@),
    {
        let protocol = match Protocol::from_tag(&raw.protocol) {
            Ok(p) => p,
            Err(e) => {
                return Err(e);
            },
        };
        let curve = match Curve::from_tag(&raw.curve) {
            Ok(c) => c,
            Err(e) => {
                return Err(e);
            },
        };
        if raw.ic.len() as u128 != raw.num_public as u128 + 1 {
            return Err(DecodeError::InconsistentIcLength);
        }
        let alpha_g1 = match g1_from_str(&raw.vk_alpha_1) {
            Ok(p) => p,
            Err(e) => {
                return Err(e);
            },
        };
        let beta_g2 = match g2_from_str(&raw.vk_beta_2) {
            Ok(p) => p,
            Err(e) => {
                return Err(e);
            },
        };
        let gamma_g2 = match g2_from_str(&raw.vk_gamma_2) {
            Ok(p) => p,
            Err(e) => {
                return Err(e);
            },
        };
        let delta_g2 = match g2_from_str(&raw.vk_delta_2) {
            Ok(p) => p,
            Err(e) => {
                return Err(e);
            },
        };
        let gamma_abc_g1 = match g1_list_from_str(&raw.ic) {
            Ok(points) => points,
            Err(e) => {
                return Err(e);
            },
        };
        Ok(
            CircuitVerifyingKey {
                alpha_g1,
                beta_g2,
                gamma_g2,
                delta_g2,
                gamma_abc_g1,
                protocol,
                curve,
            },
        )
    }

    /// The verifying key with the given points; `gamma_abc_g1` holds the
    /// input bases, that of the constant term first.
    pub fn new(
        alpha_g1: G1Point,
        beta_g2: G2Point,
        gamma_g2: G2Point,
        delta_g2: G2Point,
        gamma_abc_g1: Vec<G1Point>,
    ) -> (r: Self)
        ensures
            r@ == (VerifyingKeyView {
                alpha: alpha_g1@,
                beta: beta_g2@,
                gamma: gamma_g2@,
                delta: delta_g2@,
                ic: g1_views(gamma_abc_g1@),
            }),
    {
        CircuitVerifyingKey {
            alpha_g1,
            beta_g2,
            gamma_g2,
            delta_g2,
            gamma_abc_g1,
            protocol: Protocol::Groth16,
            curve: Curve::Bn128,
        }
    }

    /// The point `alpha` of the key.
    pub fn alpha_g1(&self) -> (p: G1Point)
        ensures
            p@ == self@.alpha,
    {
        self.alpha_g1
    }

    /// The point `beta` of the key.
    pub fn beta_g2(&self) -> (p: G2Point)
        ensures
            p@ == self@.beta,
    {
        self.beta_g2
    }

    /// The point `gamma` of the key.
    pub fn gamma_g2(&self) -> (p: G2Point)
        ensures
            p@ == self@.gamma,
    {
        self.gamma_g2
    }

    /// The point `delta` of the key.
    pub fn delta_g2(&self) -> (p: G2Point)
        ensures
            p@ == self@.delta,
    {
        self.delta_g2
    }

    /// The number of input bases: one more than the number of public inputs.
    pub fn ic_len(&self) -> (n: usize)
        ensures
            n == self@.ic.len(),
    {
        self.gamma_abc_g1.len()
    }

    /// The input base at position `i`; position 0 holds the base of the
    /// constant term.
    pub fn ic(&self, i: usize) -> (r: Option<G1Point>)
        ensures
            r is Some <==> i < self@.ic.len(),
            r matches Some(p) ==> p@ == self@.ic[i as int],
    {
        if i < self.gamma_abc_g1.len() {
            Some(self.gamma_abc_g1[i])
        } else {
            None
        }
    }

    /// The protocol under which the key was declared.
    pub fn protocol(&self) -> (p: Protocol)
        ensures
            p == Protocol::Groth16,
    {
        self.protocol
    }

    /// The curve under which the key was declared.
    pub fn curve(&self) -> (c: Curve)
        ensures
            c == Curve::Bn128,
    {
        self.curve
    }
}

} // verus!
