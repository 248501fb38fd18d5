//! The two prime fields of BN254 and the quadratic extension of the base field.
//!
//! An element is held in canonical form: four 64-bit limbs, least significant
//! first, of a number below the modulus. Its view is that number.

use vstd::prelude::*;
use crate::decimal::{decimal_digits, decimal_value, is_numeral, parse_decimal, to_decimal};
use crate::error::DecodeError;
use crate::uint::{lemma_limbs_value_injective, limbs_value, U256};

verus! {

/// The modulus of the base field, in which the coordinates of points lie.
pub open spec fn fq_modulus() -> nat {
    21888242871839275222246405745257275088696311157297823662689037894645226208583nat
}

/// The modulus of the scalar field, in which the public inputs lie: the order
/// of the groups.
pub open spec fn fr_modulus() -> nat {
    21888242871839275222246405745257275088548364400416034343698204186575808495617nat
}

/// The modulus of the base field as a number on limbs.
pub fn fq_modulus_u256() -> (m: U256)
    ensures
        m@ == fq_modulus(),
{
    U256 {
        l0: 0x3c208c16d87cfd47,
        l1: 0x97816a916871ca8d,
        l2: 0xb85045b68181585d,
        l3: 0x30644e72e131a029,
    }
}

/// The modulus of the scalar field as a number on limbs.
pub fn fr_modulus_u256() -> (m: U256)
    ensures
        m@ == fr_modulus(),
{
    U256 {
        l0: 0x43e1f593f0000001,
        l1: 0x2833e84879b97091,
        l2: 0xb85045b68181585d,
        l3: 0x30644e72e131a029,
    }
}

/// An element of the base field.
#[derive(Clone, Copy, Debug, PartialEq, Eq)]
pub struct Fq {
    pub(crate) limbs: [u64; 4],
}

impl View for Fq {
    type V = nat;

    closed spec fn view(&self) -> nat {
        limbs_value(self.limbs[0], self.limbs[1], self.limbs[2], self.limbs[3])
    }
}

impl Fq {
    /// Every element is held in canonical form.
    #[verifier::type_invariant]
    pub open spec fn is_canonical(self) -> bool {
        self@ < fq_modulus()
    }

    /// The element zero.
    pub fn zero() -> (r: Fq)
        ensures
            r@ == 0,
    {
        Fq { limbs: [0, 0, 0, 0] }
    }

    /// The element one.
    pub fn one() -> (r: Fq)
        ensures
            r@ == 1,
    {
        Fq { limbs: [1, 0, 0, 0] }
    }

    /// The element `value`.
    pub fn from_u64(value: u64) -> (r: Fq)
        ensures
            r@ == value,
    {
        Fq { limbs: [value, 0, 0, 0] }
    }

    /// The element `value`, where `value` is below the modulus.
    pub fn from_u256(value: U256) -> (r: Option<Fq>)
        ensures
            r is Some <==> value@ < fq_modulus(),
            r matches Some(e) ==> e@ == value@,
    {
        if value.lt(&fq_modulus_u256()) {
            Some(Fq { limbs: value.to_limbs() })
        } else {
            None
        }
    }

    /// The element with the given limbs, least significant first, where they
    /// stand for a number below the modulus.
    pub fn from_limbs(limbs: [u64; 4]) -> (r: Option<Fq>)
        ensures
            r is Some <==> limbs_value(limbs[0], limbs[1], limbs[2], limbs[3]) < fq_modulus(),
            r matches Some(e) ==> e@ == limbs_value(limbs[0], limbs[1], limbs[2], limbs[3]),
    {
        Fq::from_u256(U256::from_limbs(limbs))
    }

    /// The canonical number of the element.
    pub fn to_u256(&self) -> (r: U256)
        ensures
            r@ == self@,
            r@ < fq_modulus(),
    {
        proof {
            use_type_invariant(self);
        }
        U256::from_limbs(self.limbs)
    }

    /// The limbs of the canonical number, least significant first.
    pub fn to_limbs(&self) -> (limbs: [u64; 4])
        ensures
            limbs_value(limbs[0], limbs[1], limbs[2], limbs[3]) == self@,
    {
        self.limbs
    }

    /// The numeral of the element, which [`fq_from_str`] reads back as the
    /// element.
    pub fn to_decimal(&self) -> (s: String)
        ensures
            s@ == decimal_digits(self@),
            is_numeral(s@),
            decimal_value(s@) == self@,
            self@ < fq_modulus(),
    {
        to_decimal(&self.to_u256())
    }

    /// Whether the element is zero.
    pub fn is_zero(&self) -> (b: bool)
        ensures
            b == (self@ == 0),
    {
        self.to_u256().same(&U256::zero())
    }

    /// Whether the element is one.
    pub fn is_one(&self) -> (b: bool)
        ensures
            b == (self@ == 1),
    {
        self.to_u256().same(&U256::from_u64(1))
    }

    /// Whether `self` and `other` are the same element.
    pub fn same(&self, other: &Fq) -> (b: bool)
        ensures
            b == (self@ == other@),
    {
        self.to_u256().same(&other.to_u256())
    }
}

/// Two elements of the base field are equal exactly when their canonical
/// numbers are equal.
pub proof fn lemma_fq_equal_iff_same_value(a: Fq, b: Fq)
    ensures
        (a == b) <==> (a@ == b@),
{
    if a@ == b@ {
        lemma_limbs_value_injective(
            a.limbs[0],
            a.limbs[1],
            a.limbs[2],
            a.limbs[3],
            b.limbs[0],
            b.limbs[1],
            b.limbs[2],
            b.limbs[3],
        );
        assert(a.limbs =~= b.limbs);
    }
}

/// Reads a decimal numeral as an element of the base field.
///
/// Succeeds exactly on the numerals (digits only, not empty, no leading zero
/// but for `0` itself) whose value is below the modulus; the element is then
/// that value.
pub fn fq_from_str(s: String) -> (r: Result<Fq, DecodeError>)
    ensures
        r is Ok <==> is_numeral(s@) && decimal_value(s@) < fq_modulus(),
        r matches Ok(e) ==> e@ == decimal_value(s@),
        r matches Err(e) ==> e == DecodeError::InvalidNumeral,
{
    match parse_decimal(s.as_str(), &fq_modulus_u256()) {
        Some(value) => Ok(Fq { limbs: value.to_limbs() }),
        None => Err(DecodeError::InvalidNumeral),
    }
}


/// An element of the scalar field.
#[derive(Clone, Copy, Debug, PartialEq, Eq)]
pub struct Fr {
    pub(crate) limbs: [u64; 4],
}

impl View for Fr {
    type V = nat;

    closed spec fn view(&self) -> nat {
        limbs_value(self.limbs[0], self.limbs[1], self.limbs[2], self.limbs[3])
    }
}

impl Fr {
    /// Every element is held in canonical form.
    #[verifier::type_invariant]
    pub open spec fn is_canonical(self) -> bool {
        self@ < fr_modulus()
    }

    /// The element zero.
    pub fn zero() -> (r: Fr)
        ensures
            r@ == 0,
    {
        Fr { limbs: [0, 0, 0, 0] }
    }

    /// The element one.
    pub fn one() -> (r: Fr)
        ensures
            r@ == 1,
    {
        Fr { limbs: [1, 0, 0, 0] }
    }

    /// The element `value`.
    pub fn from_u64(value: u64) -> (r: Fr)
        ensures
            r@ == value,
    {
        Fr { limbs: [value, 0, 0, 0] }
    }

    /// The element `value`, where `value` is below the modulus.
    pub fn from_u256(value: U256) -> (r: Option<Fr>)
        ensures
            r is Some <==> value@ < fr_modulus(),
            r matches Some(e) ==> e@ == value@,
    {
        if value.lt(&fr_modulus_u256()) {
            Some(Fr { limbs: value.to_limbs() })
        } else {
            None
        }
    }

    /// The element with the given limbs, least significant first, where they
    /// stand for a number below the modulus.
    pub fn from_limbs(limbs: [u64; 4]) -> (r: Option<Fr>)
        ensures
            r is Some <==> limbs_value(limbs[0], limbs[1], limbs[2], limbs[3]) < fr_modulus(),
            r matches Some(e) ==> e@ == limbs_value(limbs[0], limbs[1], limbs[2], limbs[3]),
    {
        Fr::from_u256(U256::from_limbs(limbs))
    }

    /// The canonical number of the element.
    pub fn to_u256(&self) -> (r: U256)
        ensures
            r@ == self@,
            r@ < fr_modulus(),
    {
        proof {
            use_type_invariant(self);
        }
        U256::from_limbs(self.limbs)
    }

    /// The limbs of the canonical number, least significant first.
    pub fn to_limbs(&self) -> (limbs: [u64; 4])
        ensures
            limbs_value(limbs[0], limbs[1], limbs[2], limbs[3]) == self@,
    {
        self.limbs
    }

    /// The numeral of the element, which [`fr_from_str`] reads back as the
    /// element.
    pub fn to_decimal(&self) -> (s: String)
        ensures
            s@ == decimal_digits(self@),
            is_numeral(s@),
            decimal_value(s@) == self@,
            self@ < fr_modulus(),
    {
        to_decimal(&self.to_u256())
    }

    /// Whether the element is zero.
    pub fn is_zero(&self) -> (b: bool)
        ensures
            b == (self@ == 0),
    {
        self.to_u256().same(&U256::zero())
    }

    /// Whether `self` and `other` are the same element.
    pub fn same(&self, other: &Fr) -> (b: bool)
        ensures
            b == (self@ == other@),
    {
        self.to_u256().same(&other.to_u256())
    }
}

/// Two elements of the scalar field are equal exactly when their canonical
/// numbers are equal.
pub proof fn lemma_fr_equal_iff_same_value(a: Fr, b: Fr)
    ensures
        (a == b) <==> (a@ == b@),
{
    if a@ == b@ {
        lemma_limbs_value_injective(
            a.limbs[0],
            a.limbs[1],
            a.limbs[2],
            a.limbs[3],
            b.limbs[0],
            b.limbs[1],
            b.limbs[2],
            b.limbs[3],
        );
        assert(a.limbs =~= b.limbs);
    }
}

/// Reads a decimal numeral as an element of the scalar field.
///
/// Succeeds exactly on the numerals (digits only, not empty, no leading zero
/// but for `0` itself) whose value is below the modulus; the element is then
/// that value.
pub fn fr_from_str(s: String) -> (r: Result<Fr, DecodeError>)
    ensures
        r is Ok <==> is_numeral(s@) && decimal_value(s@) < fr_modulus(),
        r matches Ok(e) ==> e@ == decimal_value(s@),
        r matches Err(e) ==> e == DecodeError::InvalidNumeral,
{
    match parse_decimal(s.as_str(), &fr_modulus_u256()) {
        Some(value) => Ok(Fr { limbs: value.to_limbs() }),
        None => Err(DecodeError::InvalidNumeral),
    }
}

/// The sum of `a` and `b` in the quadratic extension of the base field, each
/// given as the pair of its coefficients.
pub open spec fn fq2_sum(a: (nat, nat), b: (nat, nat)) -> (nat, nat) {
    ((a.0 + b.0) % fq_modulus(), (a.1 + b.1) % fq_modulus())
}

/// The product of `a` and `b` in the quadratic extension of the base field,
/// in which the square of the adjoined element is minus one.
pub open spec fn fq2_product(a: (nat, nat), b: (nat, nat)) -> (nat, nat) {
    (
        ((a.0 * b.0 - a.1 * b.1) % (fq_modulus() as int)) as nat,
        (a.0 * b.1 + a.1 * b.0) % fq_modulus(),
    )
}

/// One is neutral for the product in the quadratic extension.
pub proof fn lemma_fq2_product_one(a: (nat, nat))
    requires
        a.0 < fq_modulus(),
        a.1 < fq_modulus(),
    ensures
        fq2_product(a, (1nat, 0nat)) == a,
{
    assert(a.0 * 1 - a.1 * 0 == a.0) by (nonlinear_arith);
    assert(a.0 * 0 + a.1 * 1 == a.1) by (nonlinear_arith);
}

/// An element `c0 + c1 * u` of the quadratic extension of the base field,
/// where `u * u` is minus one. Its view is the pair of the two coefficients.
#[derive(Clone, Copy, Debug, PartialEq, Eq)]
pub struct Fq2 {
    pub c0: Fq,
    pub c1: Fq,
}

impl View for Fq2 {
    type V = (nat, nat);

    open spec fn view(&self) -> (nat, nat) {
        (self.c0@, self.c1@)
    }
}

impl Fq2 {
    /// The element with the given coefficients.
    pub fn new(c0: Fq, c1: Fq) -> (r: Fq2)
        ensures
            r@ == (c0@, c1@),
    {
        Fq2 { c0, c1 }
    }

    /// The element zero.
    pub fn zero() -> (r: Fq2)
        ensures
            r@ == (0nat, 0nat),
    {
        Fq2 { c0: Fq::zero(), c1: Fq::zero() }
    }

    /// The element one.
    pub fn one() -> (r: Fq2)
        ensures
            r@ == (1nat, 0nat),
    {
        Fq2 { c0: Fq::one(), c1: Fq::zero() }
    }

    /// Whether the element is zero.
    pub fn is_zero(&self) -> (b: bool)
        ensures
            b == (self@ == (0nat, 0nat)),
    {
        self.c0.is_zero() && self.c1.is_zero()
    }

    /// Whether the element is one.
    pub fn is_one(&self) -> (b: bool)
        ensures
            b == (self@ == (1nat, 0nat)),
    {
        self.c0.is_one() && self.c1.is_zero()
    }

    /// Whether `self` and `other` are the same element.
    pub fn same(&self, other: &Fq2) -> (b: bool)
        ensures
            b == (self@ == other@),
    {
        self.c0.same(&other.c0) && self.c1.same(&other.c1)
    }
}

} // verus!
