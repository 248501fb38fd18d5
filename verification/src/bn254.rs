//! The arithmetic of BN254 that this library does not do itself: division in
//! the fields, the curve equations, the group law and the pairing. Each
//! function here hands its arguments to the arkworks crates and states what
//! comes back; none of these statements is proved.
//!
//! Elements and points go over as the limbs of their canonical numbers, which
//! `from_repr` of the arkworks fields takes and `into_repr` gives. That the
//! numbers handed over are canonical is the invariant of the types here.

use vstd::prelude::*;
use ark_bn254::{Bn254, Fq as ArkFq, Fq12, Fq2 as ArkFq2, G1Affine, G2Affine};
use ark_ec::{AffineCurve, PairingEngine, ProjectiveCurve};
use ark_ff::{BigInteger256, Field, PrimeField, ToConstraintField};
use crate::field::{fq2_product, fq_modulus, Fq, Fq2, Fr};
use crate::pairing::{canonical_coefficients, coefficient_values, pairs_view};
use crate::point::{
    g1_curve_equation, g2_curve_equation, G1Point, G1Value, G2Point, G2Value,
};

verus! {

/// The quotient of `a` by `b` in the base field, for `b` other than zero.
pub uninterp spec fn fq_quotient(a: nat, b: nat) -> nat;

/// The quotient of `a` by `b` in the quadratic extension of the base field,
/// for `b` other than zero.
pub uninterp spec fn fq2_quotient(a: (nat, nat), b: (nat, nat)) -> (nat, nat);

/// Whether the point `(x, y)` of the twisted curve lies in its subgroup of
/// prime order: whether its multiple by the order of the scalar field is the
/// identity.
pub uninterp spec fn g2_subgroup_member(x: (nat, nat), y: (nat, nat)) -> bool;

/// The sum of two points of the first group.
pub uninterp spec fn g1_sum(p: G1Value, q: G1Value) -> G1Value;

/// The multiple of a point of the first group by the scalar `k`.
pub uninterp spec fn g1_scaled(p: G1Value, k: nat) -> G1Value;

/// The product of the Miller loops of the pairs, before the final
/// exponentiation: the twelve coefficients over the base field of an element
/// of the degree-twelve extension.
pub uninterp spec fn miller_product(pairs: Seq<(G1Value, G2Value)>) -> Seq<nat>;

/// The final exponentiation of an element of the degree-twelve extension,
/// given and returned by its twelve coefficients; `None` where the element
/// has no inverse.
pub uninterp spec fn final_exponent(m: Seq<nat>) -> Option<Seq<nat>>;

/// Division in the base field: the `/` of `ark_bn254::Fq`, which multiplies
/// by the inverse of the divisor and panics on a zero divisor.
///
/// The result is the canonical element whose product with `b` is `a`.
#[verifier::external_body]
pub(crate) fn fq_div(a: &Fq, b: &Fq) -> (r: Fq)
    requires
        b@ != 0,
    ensures
        r@ == fq_quotient(a@, b@),
        r@ < fq_modulus(),
        (r@ * b@) % fq_modulus() == a@,
{
    let x = ArkFq::from_repr(BigInteger256(a.limbs)).unwrap();
    let y = ArkFq::from_repr(BigInteger256(b.limbs)).unwrap();
    Fq { limbs: (x / y).into_repr().0 }
}

/// Division in the quadratic extension of the base field: the `/` of
/// `ark_bn254::Fq2`, which multiplies by the inverse of the divisor and
/// panics on a zero divisor.
///
/// The result is the element whose product with `b` is `a`, with canonical
/// coefficients.
#[verifier::external_body]
pub(crate) fn fq2_div(a: &Fq2, b: &Fq2) -> (r: Fq2)
    requires
        b@ != (0nat, 0nat),
    ensures
        r@ == fq2_quotient(a@, b@),
        r@.0 < fq_modulus(),
        r@.1 < fq_modulus(),
        fq2_product(r@, b@) == a@,
{
    let f = |e: &Fq| ArkFq::from_repr(BigInteger256(e.limbs)).unwrap();
    let x = ArkFq2::new(f(&a.c0), f(&a.c1));
    let y = ArkFq2::new(f(&b.c0), f(&b.c1));
    let q = x / y;
    Fq2 { c0: Fq { limbs: q.c0.into_repr().0 }, c1: Fq { limbs: q.c1.into_repr().0 } }
}

/// Whether `(x, y)` satisfies the equation of the curve of the first group:
/// `is_on_curve` of `ark_bn254::G1Affine`, on the point built from the two
/// coordinates.
#[verifier::external_body]
pub(crate) fn g1_on_curve(x: &Fq, y: &Fq) -> (b: bool)
    ensures
        b == g1_curve_equation(x@, y@),
{
    let f = |e: &Fq| ArkFq::from_repr(BigInteger256(e.limbs)).unwrap();
    G1Affine::new(f(x), f(y), false).is_on_curve()
}

/// Whether `(x, y)` satisfies the equation of the curve of the second group:
/// `is_on_curve` of `ark_bn254::G2Affine`, on the point built from the two
/// coordinates.
#[verifier::external_body]
pub(crate) fn g2_on_curve(x: &Fq2, y: &Fq2) -> (b: bool)
    ensures
        b == g2_curve_equation(x@, y@),
{
    let f = |e: &Fq| ArkFq::from_repr(BigInteger256(e.limbs)).unwrap();
    let px = ArkFq2::new(f(&x.c0), f(&x.c1));
    let py = ArkFq2::new(f(&y.c0), f(&y.c1));
    G2Affine::new(px, py, false).is_on_curve()
}

/// Whether the point `(x, y)` lies in the subgroup of prime order of the
/// twisted curve: `is_in_correct_subgroup_assuming_on_curve` of
/// `ark_bn254::G2Affine`, which multiplies the point by the group order and
/// tests the result for the identity.
#[verifier::external_body]
pub(crate) fn g2_in_subgroup(x: &Fq2, y: &Fq2) -> (b: bool)
    ensures
        b == g2_subgroup_member(x@, y@),
{
    let f = |e: &Fq| ArkFq::from_repr(BigInteger256(e.limbs)).unwrap();
    let px = ArkFq2::new(f(&x.c0), f(&x.c1));
    let py = ArkFq2::new(f(&y.c0), f(&y.c1));
    G2Affine::new(px, py, false).is_in_correct_subgroup_assuming_on_curve()
}

/// The sum of two points of the first group: the `+` of
/// `ark_bn254::G1Affine`. The identity comes back with the coordinates
/// `(0, 1)`.
#[verifier::external_body]
pub(crate) fn g1_add(p: &G1Point, q: &G1Point) -> (r: G1Point)
    ensures
        r@ == g1_sum(p@, q@),
        r.well_formed(),
{
    let f = |e: &Fq| ArkFq::from_repr(BigInteger256(e.limbs)).unwrap();
    let a = G1Affine::new(f(&p.x), f(&p.y), p.infinity);
    let b = G1Affine::new(f(&q.x), f(&q.y), q.infinity);
    let s = a + b;
    G1Point {
        x: Fq { limbs: s.x.into_repr().0 },
        y: Fq { limbs: s.y.into_repr().0 },
        infinity: s.infinity,
    }
}

/// The multiple of a point of the first group by a scalar: `mul` of
/// `ark_bn254::G1Affine` (double and add over the bits of the scalar),
/// brought back to affine form. The identity comes back with the coordinates
/// `(0, 1)`.
#[verifier::external_body]
pub(crate) fn g1_scale(p: &G1Point, k: &Fr) -> (r: G1Point)
    ensures
        r@ == g1_scaled(p@, k@),
        r.well_formed(),
{
    let f = |e: &Fq| ArkFq::from_repr(BigInteger256(e.limbs)).unwrap();
    let a = G1Affine::new(f(&p.x), f(&p.y), p.infinity);
    let s = a.mul(BigInteger256(k.limbs)).into_affine();
    G1Point {
        x: Fq { limbs: s.x.into_repr().0 },
        y: Fq { limbs: s.y.into_repr().0 },
        infinity: s.infinity,
    }
}

/// The product of the Miller loops of the pairs: `miller_loop` of
/// `ark_bn254::Bn254`, which leaves out the pairs that hold an identity. The
/// result, an element of the degree-twelve extension, is handed back by the
/// limbs of its twelve canonical coefficients over the base field.
#[verifier::external_body]
pub(crate) fn miller_loop(pairs: &Vec<(G1Point, G2Point)>) -> (r: Vec<[u64; 4]>)
    ensures
        canonical_coefficients(r@),
        coefficient_values(r@) == miller_product(pairs_view(pairs@)),
{
    let f = |e: &Fq| ArkFq::from_repr(BigInteger256(e.limbs)).unwrap();
    let f2 = |e: &Fq2| ArkFq2::new(f(&e.c0), f(&e.c1));
    let prepared: Vec<_> = pairs.iter().map(|(p, q)| (
        G1Affine::new(f(&p.x), f(&p.y), p.infinity).into(),
        G2Affine::new(f2(&q.x), f2(&q.y), q.infinity).into(),
    )).collect();
    let m: Vec<ArkFq> = Bn254::miller_loop(prepared.iter()).to_field_elements().unwrap();
    m.iter().map(|c| c.into_repr().0).collect()
}

/// The final exponentiation of the pairing: `final_exponentiation` of
/// `ark_bn254::Bn254`, which returns `None` where its argument has no
/// inverse. Argument and result are elements of the degree-twelve extension,
/// given by the limbs of their twelve canonical coefficients over the base
/// field.
#[verifier::external_body]
pub(crate) fn final_exponentiation(m: &Vec<[u64; 4]>) -> (r: Option<Vec<[u64; 4]>>)
    requires
        canonical_coefficients(m@),
    ensures
        r matches Some(v) ==> canonical_coefficients(v@),
        (match r {
            Some(v) => Some(coefficient_values(v@)),
            None => None,
        }) == final_exponent(coefficient_values(m@)),
{
    let elems: Vec<ArkFq> = m.iter().map(|l| ArkFq::from_repr(BigInteger256(*l)).unwrap()).collect();
    let v = Fq12::from_base_prime_field_elems(&elems).unwrap();
    Bn254::final_exponentiation(&v).map(|e| {
        let c: Vec<ArkFq> = e.to_field_elements().unwrap();
        c.iter().map(|x| x.into_repr().0).collect()
    })
}

} // verus!
