//! The target group of the pairing, and the product of pairings.

use vstd::prelude::*;
use crate::bn254::{final_exponent, final_exponentiation, miller_loop, miller_product};
use crate::field::fq_modulus;
use crate::uint::{limbs_value, U256};
use crate::point::{G1Point, G1Value, G2Point, G2Value};

verus! {

/// The numbers that a list of limb quadruples stands for.
pub open spec fn coefficient_values(c: Seq<[u64; 4]>) -> Seq<nat> {
    c.map_values(|l: [u64; 4]| limbs_value(l[0], l[1], l[2], l[3]))
}

/// Whether `c` holds the twelve coefficients of an element of the
/// degree-twelve extension of the base field, each in canonical form.
pub open spec fn canonical_coefficients(c: Seq<[u64; 4]>) -> bool {
    &&& c.len() == 12
    &&& forall|i: int| 0 <= i < 12 ==> (#[trigger] coefficient_values(c)[i]) < fq_modulus()
}

/// An element of the degree-twelve extension of the base field, in which the
/// values of the pairing lie. Its view is the sequence of its twelve
/// coefficients over the base field.
#[derive(Debug, PartialEq, Eq)]
pub struct Gt {
    pub(crate) coeffs: Vec<[u64; 4]>,
}

impl View for Gt {
    type V = Seq<nat>;

    closed spec fn view(&self) -> Seq<nat> {
        coefficient_values(self.coeffs@)
    }
}

impl Gt {
    /// An element has twelve coefficients, each held in canonical form.
    #[verifier::type_invariant]
    pub closed spec fn well_formed(self) -> bool {
        canonical_coefficients(self.coeffs@)
    }

    /// The limbs of the coefficient at position `i`, least significant first.
    pub fn coefficient(&self, i: usize) -> (r: Option<[u64; 4]>)
        ensures
            r is Some <==> i < 12,
            r matches Some(l) ==> limbs_value(l[0], l[1], l[2], l[3]) == self@[i as int],
            self@.len() == 12,
    {
        proof {
            use_type_invariant(self);
        }
        if i < 12 {
            Some(self.coeffs[i])
        } else {
            None
        }
    }

    /// Whether `self` and `other` are the same element.
    pub fn same(&self, other: &Gt) -> (b: bool)
        ensures
            b == (self@ == other@),
    {
        proof {
            use_type_invariant(self);
            use_type_invariant(other);
        }
        let mut i: usize = 0;
        while i < 12
            invariant
                0 <= i <= 12,
                self.coeffs@.len() == 12,
                other.coeffs@.len() == 12,
                forall|j: int| 0 <= j < i ==> self@[j] == other@[j],
            decreases 12 - i,
        {
            let x = U256::from_limbs(self.coeffs[i]);
            let y = U256::from_limbs(other.coeffs[i]);
            if !x.same(&y) {
                assert(self@[i as int] != other@[i as int]);
                return false;
            }
            i = i + 1;
        }
        assert(self@ =~= other@);
        true
    }
}

/// A list of pairs of points as contracts see it: each point by its view.
pub open spec fn pairs_view(pairs: Seq<(G1Point, G2Point)>) -> Seq<(G1Value, G2Value)> {
    pairs.map_values(|pq: (G1Point, G2Point)| (pq.0@, pq.1@))
}

/// An optional element of the target group as contracts see it.
pub open spec fn gt_outcome(r: Option<Gt>) -> Option<Seq<nat>> {
    match r {
        Some(v) => Some(v@),
        None => None,
    }
}

/// The product of the pairings of the pairs: the final exponentiation of the
/// product of their Miller loops; `None` where that product has no inverse.
pub open spec fn pairing_value(pairs: Seq<(G1Value, G2Value)>) -> Option<Seq<nat>> {
    final_exponent(miller_product(pairs))
}

/// Whether two products of pairings are defined and equal.
pub open spec fn pairing_values_agree(lhs: Option<Seq<nat>>, rhs: Option<Seq<nat>>) -> bool {
    lhs is Some && lhs == rhs
}

/// The product of the pairings of the pairs.
pub fn pairing_product(pairs: &Vec<(G1Point, G2Point)>) -> (r: Option<Gt>)
    ensures
        gt_outcome(r) == pairing_value(pairs_view(pairs@)),
{
    let m = miller_loop(pairs);
    match final_exponentiation(&m) {
        Some(coeffs) => Some(Gt { coeffs }),
        None => None,
    }
}

/// Whether two products of pairings are defined and equal.
pub fn products_agree(lhs: &Option<Gt>, rhs: &Option<Gt>) -> (b: bool)
    ensures
        b == pairing_values_agree(gt_outcome(*lhs), gt_outcome(*rhs)),
{
    match (lhs, rhs) {
        (Some(l), Some(r)) => l.same(r),
        _ => false,
    }
}

} // verus!
