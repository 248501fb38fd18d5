//! Points of the two groups of BN254 in normalized affine form, and their
//! reconstruction from coordinate triples.
//!
//! The view of a point is `None` for the identity (the point at infinity) and
//! `Some` of its two affine coordinates for any other point.

use vstd::prelude::*;
use crate::bn254::{
    fq2_div, fq2_quotient, fq_div, fq_quotient, g1_add, g1_on_curve, g1_scale, g1_scaled, g1_sum,
    g2_in_subgroup, g2_on_curve, g2_subgroup_member,
};
use crate::decimal::{decimal_digits, decimal_value, is_numeral, lemma_decimal_digits};
use crate::error::DecodeError;
use crate::field::{
    fq2_product, fq2_sum, fq_from_str, fq_modulus, lemma_fq2_product_one, Fq, Fq2, Fr,
};

verus! {

/// What a point of the first group is to a contract: `None` for the identity,
/// else the affine coordinates `(x, y)`.
pub type G1Value = Option<(nat, nat)>;

/// What a point of the second group is to a contract: `None` for the
/// identity, else the affine coordinates `(x, y)`, each a pair of coefficients.
pub type G2Value = Option<((nat, nat), (nat, nat))>;

/// The equation of the curve of the first group: `y^2 = x^3 + 3`.
pub open spec fn g1_curve_equation(x: nat, y: nat) -> bool {
    (y * y) % fq_modulus() == (x * x * x + 3) % fq_modulus()
}

/// The constant term of the curve of the second group, `3 / (9 + u)`.
pub open spec fn g2_coeff_b() -> (nat, nat) {
    (
        19485874751759354771024239261021720505790618469301721065564631296452457478373nat,
        266929791119991161246907387137283842545076965332900288569378510910307636690nat,
    )
}

/// The equation of the curve of the second group: `y^2 = x^3 + 3 / (9 + u)`.
pub open spec fn g2_curve_equation(x: (nat, nat), y: (nat, nat)) -> bool {
    fq2_product(y, y) == fq2_sum(fq2_product(fq2_product(x, x), x), g2_coeff_b())
}

/// Whether `p` is a point of the first group: the identity, or a pair of
/// coordinates on the curve. (The curve has prime order, so every point of it
/// lies in the group.)
pub open spec fn g1_valid(p: G1Value) -> bool {
    match p {
        None => true,
        Some((x, y)) => g1_curve_equation(x, y),
    }
}

/// Whether `p` is a point of the second group: the identity, or a pair of
/// coordinates on the twisted curve that lies in its subgroup of prime order.
pub open spec fn g2_valid(p: G2Value) -> bool {
    match p {
        None => true,
        Some((x, y)) => g2_curve_equation(x, y) && g2_subgroup_member(x, y),
    }
}

/// A point of the first group in normalized affine form.
#[derive(Clone, Copy, Debug, PartialEq, Eq)]
pub struct G1Point {
    pub(crate) x: Fq,
    pub(crate) y: Fq,
    pub(crate) infinity: bool,
}

impl View for G1Point {
    type V = G1Value;

    closed spec fn view(&self) -> G1Value {
        if self.infinity {
            None
        } else {
            Some((self.x@, self.y@))
        }
    }
}

impl G1Point {
    /// The identity is held with the coordinates `(0, 1)`, so that equal
    /// points are equal values.
    #[verifier::type_invariant]
    pub closed spec fn well_formed(self) -> bool {
        self.infinity ==> self.x@ == 0 && self.y@ == 1
    }

    /// The identity of the group.
    pub fn identity() -> (r: G1Point)
        ensures
            r@ is None,
    {
        G1Point { x: Fq::zero(), y: Fq::one(), infinity: true }
    }

    /// The generator `(1, 2)` of the group.
    pub fn generator() -> (r: G1Point)
        ensures
            r@ == Some((1nat, 2nat)),
            g1_valid(r@),
    {
        G1Point { x: Fq::one(), y: Fq::from_u64(2), infinity: false }
    }

    /// The point with the affine coordinates `(x, y)`, where they satisfy the
    /// curve equation.
    pub fn new(x: Fq, y: Fq) -> (r: Option<G1Point>)
        ensures
            r is Some <==> g1_curve_equation(x@, y@),
            r matches Some(p) ==> p@ == Some((x@, y@)),
    {
        if g1_on_curve(&x, &y) {
            Some(G1Point { x, y, infinity: false })
        } else {
            None
        }
    }

    /// Whether the point is the identity.
    pub fn is_identity(&self) -> (b: bool)
        ensures
            b == (self@ is None),
    {
        self.infinity
    }

    /// The first affine coordinate; zero for the identity.
    pub fn x(&self) -> (r: Fq)
        ensures
            r@ == (match self@ {
                Some((x, y)) => x,
                None => 0,
            }),
    {
        proof {
            use_type_invariant(self);
        }
        self.x
    }

    /// The second affine coordinate; one for the identity.
    pub fn y(&self) -> (r: Fq)
        ensures
            r@ == (match self@ {
                Some((x, y)) => y,
                None => 1,
            }),
    {
        proof {
            use_type_invariant(self);
        }
        self.y
    }

    /// Whether `self` and `other` are the same point.
    pub fn same(&self, other: &G1Point) -> (b: bool)
        ensures
            b == (self@ == other@),
    {
        if self.infinity || other.infinity {
            self.infinity == other.infinity
        } else {
            self.x.same(&other.x) && self.y.same(&other.y)
        }
    }

    /// The sum of `self` and `other` in the group.
    pub fn plus(&self, other: &G1Point) -> (r: G1Point)
        ensures
            r@ == g1_sum(self@, other@),
    {
        g1_add(self, other)
    }

    /// The multiple of `self` by the scalar `k`.
    pub fn scaled_by(&self, k: &Fr) -> (r: G1Point)
        ensures
            r@ == g1_scaled(self@, k@),
    {
        g1_scale(self, k)
    }
}

/// A point of the second group in normalized affine form.
#[derive(Clone, Copy, Debug, PartialEq, Eq)]
pub struct G2Point {
    pub(crate) x: Fq2,
    pub(crate) y: Fq2,
    pub(crate) infinity: bool,
}

impl View for G2Point {
    type V = G2Value;

    closed spec fn view(&self) -> G2Value {
        if self.infinity {
            None
        } else {
            Some((self.x@, self.y@))
        }
    }
}

impl G2Point {
    /// The identity is held with the coordinates `(0, 1)`, so that equal
    /// points are equal values.
    #[verifier::type_invariant]
    pub closed spec fn well_formed(self) -> bool {
        self.infinity ==> self.x@ == (0nat, 0nat) && self.y@ == (1nat, 0nat)
    }

    /// The identity of the group.
    pub fn identity() -> (r: G2Point)
        ensures
            r@ is None,
    {
        G2Point { x: Fq2::zero(), y: Fq2::one(), infinity: true }
    }

    /// The point with the affine coordinates `(x, y)`, where they satisfy the
    /// curve equation and the point lies in the subgroup of prime order.
    pub fn new(x: Fq2, y: Fq2) -> (r: Option<G2Point>)
        ensures
            r is Some <==> g2_valid(Some((x@, y@))),
            r matches Some(p) ==> p@ == Some((x@, y@)),
    {
        if g2_on_curve(&x, &y) && g2_in_subgroup(&x, &y) {
            Some(G2Point { x, y, infinity: false })
        } else {
            None
        }
    }

    /// Whether the point is the identity.
    pub fn is_identity(&self) -> (b: bool)
        ensures
            b == (self@ is None),
    {
        self.infinity
    }

    /// The first affine coordinate; zero for the identity.
    pub fn x(&self) -> (r: Fq2)
        ensures
            r@ == (match self@ {
                Some((x, y)) => x,
                None => (0nat, 0nat),
            }),
    {
        proof {
            use_type_invariant(self);
        }
        self.x
    }

    /// The second affine coordinate; one for the identity.
    pub fn y(&self) -> (r: Fq2)
        ensures
            r@ == (match self@ {
                Some((x, y)) => y,
                None => (1nat, 0nat),
            }),
    {
        proof {
            use_type_invariant(self);
        }
        self.y
    }

    /// Whether `self` and `other` are the same point.
    pub fn same(&self, other: &G2Point) -> (b: bool)
        ensures
            b == (self@ == other@),
    {
        if self.infinity || other.infinity {
            self.infinity == other.infinity
        } else {
            self.x.same(&other.x) && self.y.same(&other.y)
        }
    }
}


/// Whether `s` is the numeral of a canonical element of the base field.
pub open spec fn is_fq_numeral(s: Seq<char>) -> bool {
    is_numeral(s) && decimal_value(s) < fq_modulus()
}

/// The texts of a list of strings.
pub open spec fn texts(v: Seq<String>) -> Seq<Seq<char>> {
    v.map_values(|s: String| s@)
}

/// The texts of a list of lists of strings.
pub open spec fn text_rows(v: Seq<Vec<String>>) -> Seq<Seq<Seq<char>>> {
    v.map_values(|row: Vec<String>| texts(row@))
}

/// The point of the first group that the coordinate triple `(x, y, z)` stands
/// for, or why it stands for none.
///
/// With `z` zero only the triple `(0, 1, 0)` is accepted, as the identity.
/// Otherwise the point is `(x / z, y / z)`, which has to satisfy the curve
/// equation.
pub open spec fn g1_from_coordinates(x: nat, y: nat, z: nat) -> Result<G1Value, DecodeError> {
    if z == 0 {
        if x == 0 && y == 1 {
            Ok(None)
        } else {
            Err(DecodeError::InvalidPoint)
        }
    } else {
        let ax = if z == 1 {
            x
        } else {
            fq_quotient(x, z)
        };
        let ay = if z == 1 {
            y
        } else {
            fq_quotient(y, z)
        };
        if g1_curve_equation(ax, ay) {
            Ok(Some((ax, ay)))
        } else {
            Err(DecodeError::PointNotOnCurve)
        }
    }
}

/// The point of the first group that a list of numerals stands for, or why it
/// stands for none: the list has to hold three numerals of canonical elements
/// of the base field, which are then taken as a coordinate triple.
pub open spec fn g1_from_numerals(t: Seq<Seq<char>>) -> Result<G1Value, DecodeError> {
    if t.len() != 3 {
        Err(DecodeError::MalformedJson)
    } else if !(is_fq_numeral(t[0]) && is_fq_numeral(t[1]) && is_fq_numeral(t[2])) {
        Err(DecodeError::InvalidNumeral)
    } else {
        g1_from_coordinates(decimal_value(t[0]), decimal_value(t[1]), decimal_value(t[2]))
    }
}

/// The coordinate triple in normalized form of a point of the first group:
/// `(x, y, 1)`, and `(0, 1, 0)` for the identity.
pub open spec fn g1_coordinates(p: G1Value) -> (nat, nat, nat) {
    match p {
        None => (0, 1, 0),
        Some((x, y)) => (x, y, 1),
    }
}

/// The three numerals of the normalized coordinate triple of a point of the
/// first group.
pub open spec fn g1_numerals(p: G1Value) -> Seq<Seq<char>> {
    let c = g1_coordinates(p);
    seq![decimal_digits(c.0), decimal_digits(c.1), decimal_digits(c.2)]
}

/// Whether the coordinates of `p` are canonical elements of the base field.
pub open spec fn g1_canonical(p: G1Value) -> bool {
    match p {
        None => true,
        Some((x, y)) => x < fq_modulus() && y < fq_modulus(),
    }
}

/// A result of decoding as contracts see it: the point by its view.
pub open spec fn g1_outcome(r: Result<G1Point, DecodeError>) -> Result<G1Value, DecodeError> {
    match r {
        Ok(p) => Ok(p@),
        Err(e) => Err(e),
    }
}

/// A coordinate triple stands for valid points only.
pub proof fn lemma_g1_from_coordinates_valid(x: nat, y: nat, z: nat)
    ensures
        g1_from_coordinates(x, y, z) matches Ok(p) ==> g1_valid(p),
{
}

/// Reconstruction is idempotent: the point that a coordinate triple stands
/// for is the point that its own normalized coordinate triple stands for.
pub proof fn lemma_g1_reconstruction_idempotent(x: nat, y: nat, z: nat)
    ensures
        g1_from_coordinates(x, y, z) matches Ok(p) ==> ({
            let c = g1_coordinates(p);
            g1_from_coordinates(c.0, c.1, c.2) == Ok::<G1Value, DecodeError>(p)
        }),
{
}

/// Reconstruction round-trips: the normalized coordinate triple of a valid
/// point stands for that point again.
pub proof fn lemma_g1_round_trip(p: G1Value)
    requires
        g1_valid(p),
    ensures
        ({
            let c = g1_coordinates(p);
            g1_from_coordinates(c.0, c.1, c.2) == Ok::<G1Value, DecodeError>(p)
        }),
{
}

/// Reconstruction round-trips through numerals: the numerals of the
/// normalized coordinate triple of a valid point stand for that point again.
pub proof fn lemma_g1_numerals_round_trip(p: G1Value)
    requires
        g1_canonical(p),
        g1_valid(p),
    ensures
        g1_from_numerals(g1_numerals(p)) == Ok::<G1Value, DecodeError>(p),
{
    let c = g1_coordinates(p);
    lemma_decimal_digits(c.0);
    lemma_decimal_digits(c.1);
    lemma_decimal_digits(c.2);
    lemma_g1_round_trip(p);
}

impl G1Point {
    /// The three numerals of the normalized coordinate triple of the point.
    /// A valid point is read back from them by [`g1_from_str`].
    pub fn to_strings(&self) -> (v: Vec<String>)
        ensures
            texts(v@) == g1_numerals(self@),
            g1_valid(self@) ==> g1_from_numerals(texts(v@)) == Ok::<G1Value, DecodeError>(self@),
    {
        let (x, y, z) = self.to_coordinates();
        let mut v: Vec<String> = Vec::new();
        v.push(x.to_decimal());
        v.push(y.to_decimal());
        v.push(z.to_decimal());
        proof {
            assert(texts(v@) =~= g1_numerals(self@));
            if g1_valid(self@) {
                lemma_g1_numerals_round_trip(self@);
            }
        }
        v
    }

    /// The point that the coordinate triple `(x, y, z)` stands for.
    ///
    /// The coordinates of the point, multiplied by `z`, are `x` and `y`.
    pub fn from_coordinates(x: &Fq, y: &Fq, z: &Fq) -> (r: Result<G1Point, DecodeError>)
        ensures
            g1_outcome(r) == g1_from_coordinates(x@, y@, z@),
            r matches Ok(p) ==> g1_valid(p@),
            r matches Ok(p) ==> (match p@ {
                Some((ax, ay)) => (ax * z@) % fq_modulus() == x@ && (ay * z@) % fq_modulus()
                    == y@,
                None => z@ == 0,
            }),
    {
        proof {
            use_type_invariant(x);
            use_type_invariant(y);
        }
        if z.is_zero() {
            if x.is_zero() && y.is_one() {
                Ok(G1Point::identity())
            } else {
                Err(DecodeError::InvalidPoint)
            }
        } else {
            let (ax, ay) = if z.is_one() {
                (*x, *y)
            } else {
                (fq_div(x, z), fq_div(y, z))
            };
            if g1_on_curve(&ax, &ay) {
                Ok(G1Point { x: ax, y: ay, infinity: false })
            } else {
                Err(DecodeError::PointNotOnCurve)
            }
        }
    }

    /// The coordinate triple of the point in normalized form.
    pub fn to_coordinates(&self) -> (c: (Fq, Fq, Fq))
        ensures
            (c.0@, c.1@, c.2@) == g1_coordinates(self@),
    {
        proof {
            use_type_invariant(self);
        }
        if self.infinity {
            (self.x, self.y, Fq::zero())
        } else {
            (self.x, self.y, Fq::one())
        }
    }
}

/// Reads a point of the first group from the three numerals of its coordinate
/// triple.
///
/// The coordinates of the point, multiplied by the third number of the
/// triple, are its first two numbers.
pub fn g1_from_str(g1: &Vec<String>) -> (r: Result<G1Point, DecodeError>)
    ensures
        g1_outcome(r) == g1_from_numerals(texts(g1@)),
        r matches Ok(p) ==> g1_valid(p@),
        r matches Ok(p) ==> ({
            let t = texts(g1@);
            match p@ {
                Some((ax, ay)) => (ax * decimal_value(t[2])) % fq_modulus() == decimal_value(t[0])
                    && (ay * decimal_value(t[2])) % fq_modulus() == decimal_value(t[1]),
                None => decimal_value(t[2]) == 0,
            }
        }),
{
    if g1.len() != 3 {
        return Err(DecodeError::MalformedJson);
    }
    let x = match fq_from_str(g1[0].clone()) {
        Ok(e) => e,
        Err(e) => {
            return Err(e);
        },
    };
    let y = match fq_from_str(g1[1].clone()) {
        Ok(e) => e,
        Err(e) => {
            return Err(e);
        },
    };
    let z = match fq_from_str(g1[2].clone()) {
        Ok(e) => e,
        Err(e) => {
            return Err(e);
        },
    };
    G1Point::from_coordinates(&x, &y, &z)
}

/// The point of the second group that the coordinate triple `(x, y, z)`
/// stands for, or why it stands for none.
///
/// With `z` zero only the triple `(0, 1, 0)` is accepted, as the identity.
/// Otherwise the point is `(x / z, y / z)`, which has to satisfy the curve
/// equation and to lie in the subgroup of prime order.
pub open spec fn g2_from_coordinates(x: (nat, nat), y: (nat, nat), z: (nat, nat)) -> Result<
    G2Value,
    DecodeError,
> {
    if z == (0nat, 0nat) {
        if x == (0nat, 0nat) && y == (1nat, 0nat) {
            Ok(None)
        } else {
            Err(DecodeError::InvalidPoint)
        }
    } else {
        let ax = if z == (1nat, 0nat) {
            x
        } else {
            fq2_quotient(x, z)
        };
        let ay = if z == (1nat, 0nat) {
            y
        } else {
            fq2_quotient(y, z)
        };
        if g2_curve_equation(ax, ay) && g2_subgroup_member(ax, ay) {
            Ok(Some((ax, ay)))
        } else {
            Err(DecodeError::PointNotOnCurve)
        }
    }
}

/// Whether `row` holds the two numerals of an element of the quadratic
/// extension of the base field.
pub open spec fn is_fq2_numerals(row: Seq<Seq<char>>) -> bool {
    is_fq_numeral(row[0]) && is_fq_numeral(row[1])
}

/// The element of the quadratic extension that the two numerals of `row`
/// stand for: the coefficient `c0` first, then `c1`.
pub open spec fn fq2_value(row: Seq<Seq<char>>) -> (nat, nat) {
    (decimal_value(row[0]), decimal_value(row[1]))
}

/// The point of the second group that three rows of numerals stand for, or
/// why they stand for none: there have to be three rows of two numerals of
/// canonical elements of the base field each, which are then taken as a
/// coordinate triple.
pub open spec fn g2_from_numerals(t: Seq<Seq<Seq<char>>>) -> Result<G2Value, DecodeError> {
    if !(t.len() == 3 && t[0].len() == 2 && t[1].len() == 2 && t[2].len() == 2) {
        Err(DecodeError::MalformedJson)
    } else if !(is_fq2_numerals(t[0]) && is_fq2_numerals(t[1]) && is_fq2_numerals(t[2])) {
        Err(DecodeError::InvalidNumeral)
    } else {
        g2_from_coordinates(fq2_value(t[0]), fq2_value(t[1]), fq2_value(t[2]))
    }
}

/// The coordinate triple in normalized form of a point of the second group:
/// `(x, y, 1)`, and `(0, 1, 0)` for the identity.
pub open spec fn g2_coordinates(p: G2Value) -> ((nat, nat), (nat, nat), (nat, nat)) {
    match p {
        None => ((0, 0), (1, 0), (0, 0)),
        Some((x, y)) => (x, y, (1, 0)),
    }
}

/// The two numerals of an element of the quadratic extension of the base
/// field, the coefficient `c0` first.
pub open spec fn fq2_numerals(e: (nat, nat)) -> Seq<Seq<char>> {
    seq![decimal_digits(e.0), decimal_digits(e.1)]
}

/// The three rows of numerals of the normalized coordinate triple of a point
/// of the second group.
pub open spec fn g2_numerals(p: G2Value) -> Seq<Seq<Seq<char>>> {
    let c = g2_coordinates(p);
    seq![fq2_numerals(c.0), fq2_numerals(c.1), fq2_numerals(c.2)]
}

/// Whether the coordinates of `p` are pairs of canonical elements of the base
/// field.
pub open spec fn g2_canonical(p: G2Value) -> bool {
    match p {
        None => true,
        Some((x, y)) => x.0 < fq_modulus() && x.1 < fq_modulus() && y.0 < fq_modulus() && y.1
            < fq_modulus(),
    }
}

/// A result of decoding as contracts see it: the point by its view.
pub open spec fn g2_outcome(r: Result<G2Point, DecodeError>) -> Result<G2Value, DecodeError> {
    match r {
        Ok(p) => Ok(p@),
        Err(e) => Err(e),
    }
}

/// A coordinate triple stands for valid points only.
pub proof fn lemma_g2_from_coordinates_valid(x: (nat, nat), y: (nat, nat), z: (nat, nat))
    ensures
        g2_from_coordinates(x, y, z) matches Ok(p) ==> g2_valid(p),
{
}

/// Reconstruction is idempotent: the point that a coordinate triple stands
/// for is the point that its own normalized coordinate triple stands for.
pub proof fn lemma_g2_reconstruction_idempotent(x: (nat, nat), y: (nat, nat), z: (nat, nat))
    ensures
        g2_from_coordinates(x, y, z) matches Ok(p) ==> ({
            let c = g2_coordinates(p);
            g2_from_coordinates(c.0, c.1, c.2) == Ok::<G2Value, DecodeError>(p)
        }),
{
}

/// Reconstruction round-trips: the normalized coordinate triple of a valid
/// point stands for that point again.
pub proof fn lemma_g2_round_trip(p: G2Value)
    requires
        g2_valid(p),
    ensures
        ({
            let c = g2_coordinates(p);
            g2_from_coordinates(c.0, c.1, c.2) == Ok::<G2Value, DecodeError>(p)
        }),
{
}

/// Reconstruction round-trips through numerals: the numerals of the
/// normalized coordinate triple of a valid point stand for that point again.
pub proof fn lemma_g2_numerals_round_trip(p: G2Value)
    requires
        g2_canonical(p),
        g2_valid(p),
    ensures
        g2_from_numerals(g2_numerals(p)) == Ok::<G2Value, DecodeError>(p),
{
    let c = g2_coordinates(p);
    lemma_decimal_digits(c.0.0);
    lemma_decimal_digits(c.0.1);
    lemma_decimal_digits(c.1.0);
    lemma_decimal_digits(c.1.1);
    lemma_decimal_digits(c.2.0);
    lemma_decimal_digits(c.2.1);
    lemma_g2_round_trip(p);
}

/// The two numerals of an element of the quadratic extension of the base
/// field, the coefficient `c0` first.
pub fn fq2_to_strings(e: &Fq2) -> (v: Vec<String>)
    ensures
        texts(v@) == fq2_numerals(e@),
        e@.0 < fq_modulus(),
        e@.1 < fq_modulus(),
{
    let mut v: Vec<String> = Vec::new();
    v.push(e.c0.to_decimal());
    v.push(e.c1.to_decimal());
    assert(texts(v@) =~= fq2_numerals(e@));
    v
}

impl G2Point {
    /// The three rows of numerals of the normalized coordinate triple of the
    /// point. A valid point is read back from them by [`g2_from_str`].
    pub fn to_strings(&self) -> (v: Vec<Vec<String>>)
        ensures
            text_rows(v@) == g2_numerals(self@),
            g2_valid(self@) ==> g2_from_numerals(text_rows(v@)) == Ok::<G2Value, DecodeError>(
                self@,
            ),
    {
        let (x, y, z) = self.to_coordinates();
        let mut v: Vec<Vec<String>> = Vec::new();
        v.push(fq2_to_strings(&x));
        v.push(fq2_to_strings(&y));
        v.push(fq2_to_strings(&z));
        proof {
            assert(text_rows(v@) =~= g2_numerals(self@));
            if g2_valid(self@) {
                lemma_g2_numerals_round_trip(self@);
            }
        }
        v
    }

    /// The point that the coordinate triple `(x, y, z)` stands for.
    ///
    /// The coordinates of the point, multiplied by `z`, are `x` and `y`.
    pub fn from_coordinates(x: &Fq2, y: &Fq2, z: &Fq2) -> (r: Result<G2Point, DecodeError>)
        ensures
            g2_outcome(r) == g2_from_coordinates(x@, y@, z@),
            r matches Ok(p) ==> g2_valid(p@),
            r matches Ok(p) ==> (match p@ {
                Some((ax, ay)) => fq2_product(ax, z@) == x@ && fq2_product(ay, z@) == y@,
                None => z@ == (0nat, 0nat),
            }),
    {
        proof {
            use_type_invariant(&x.c0);
            use_type_invariant(&x.c1);
            use_type_invariant(&y.c0);
            use_type_invariant(&y.c1);
            lemma_fq2_product_one(x@);
            lemma_fq2_product_one(y@);
        }
        if z.is_zero() {
            if x.is_zero() && y.is_one() {
                Ok(G2Point::identity())
            } else {
                Err(DecodeError::InvalidPoint)
            }
        } else {
            let (ax, ay) = if z.is_one() {
                (*x, *y)
            } else {
                (fq2_div(x, z), fq2_div(y, z))
            };
            if g2_on_curve(&ax, &ay) && g2_in_subgroup(&ax, &ay) {
                Ok(G2Point { x: ax, y: ay, infinity: false })
            } else {
                Err(DecodeError::PointNotOnCurve)
            }
        }
    }

    /// The coordinate triple of the point in normalized form.
    pub fn to_coordinates(&self) -> (c: (Fq2, Fq2, Fq2))
        ensures
            (c.0@, c.1@, c.2@) == g2_coordinates(self@),
    {
        proof {
            use_type_invariant(self);
        }
        if self.infinity {
            (self.x, self.y, Fq2::zero())
        } else {
            (self.x, self.y, Fq2::one())
        }
    }
}

/// The element of the quadratic extension that a list of numerals stands for,
/// or why it stands for none: the list has to hold two numerals of canonical
/// elements of the base field.
pub open spec fn fq2_from_numerals(row: Seq<Seq<char>>) -> Result<(nat, nat), DecodeError> {
    if row.len() != 2 {
        Err(DecodeError::MalformedJson)
    } else if !is_fq2_numerals(row) {
        Err(DecodeError::InvalidNumeral)
    } else {
        Ok(fq2_value(row))
    }
}

/// Reads an element of the quadratic extension of the base field from its two
/// numerals, the coefficient `c0` first.
pub fn fq2_from_str(row: &Vec<String>) -> (r: Result<Fq2, DecodeError>)
    ensures
        match r {
            Ok(e) => fq2_from_numerals(texts(row@)) == Ok::<(nat, nat), DecodeError>(e@),
            Err(e) => fq2_from_numerals(texts(row@)) == Err::<(nat, nat), DecodeError>(e),
        },
{
    if row.len() != 2 {
        return Err(DecodeError::MalformedJson);
    }
    let c0 = match fq_from_str(row[0].clone()) {
        Ok(e) => e,
        Err(e) => {
            return Err(e);
        },
    };
    let c1 = match fq_from_str(row[1].clone()) {
        Ok(e) => e,
        Err(e) => {
            return Err(e);
        },
    };
    Ok(Fq2::new(c0, c1))
}

/// Reads a point of the second group from the three rows of numerals of its
/// coordinate triple.
///
/// The coordinates of the point, multiplied by the third element of the
/// triple, are its first two elements.
pub fn g2_from_str(g2: &Vec<Vec<String>>) -> (r: Result<G2Point, DecodeError>)
    ensures
        g2_outcome(r) == g2_from_numerals(text_rows(g2@)),
        r matches Ok(p) ==> g2_valid(p@),
        r matches Ok(p) ==> ({
            let t = text_rows(g2@);
            match p@ {
                Some((ax, ay)) => fq2_product(ax, fq2_value(t[2])) == fq2_value(t[0])
                    && fq2_product(ay, fq2_value(t[2])) == fq2_value(t[1]),
                None => fq2_value(t[2]) == (0nat, 0nat),
            }
        }),
{
    if g2.len() != 3 {
        return Err(DecodeError::MalformedJson);
    }
    if g2[0].len() != 2 || g2[1].len() != 2 || g2[2].len() != 2 {
        return Err(DecodeError::MalformedJson);
    }
    let x = match fq2_from_str(&g2[0]) {
        Ok(e) => e,
        Err(e) => {
            return Err(e);
        },
    };
    let y = match fq2_from_str(&g2[1]) {
        Ok(e) => e,
        Err(e) => {
            return Err(e);
        },
    };
    let z = match fq2_from_str(&g2[2]) {
        Ok(e) => e,
        Err(e) => {
            return Err(e);
        },
    };
    G2Point::from_coordinates(&x, &y, &z)
}

} // verus!
