//! Unsigned 256-bit integers on four 64-bit limbs.

use vstd::prelude::*;

verus! {

/// Two to the power 64: the weight of the second limb.
pub open spec fn pow2_64() -> nat {
    0x1_0000_0000_0000_0000nat
}

/// Two to the power 128: the weight of the third limb.
pub open spec fn pow2_128() -> nat {
    0x1_0000_0000_0000_0000_0000_0000_0000_0000nat
}

/// Two to the power 192: the weight of the fourth limb.
pub open spec fn pow2_192() -> nat {
    0x1_0000_0000_0000_0000_0000_0000_0000_0000_0000_0000_0000_0000nat
}

/// Two to the power 256: the first number that a [`U256`] cannot hold.
pub open spec fn pow2_256() -> nat {
    0x1_0000_0000_0000_0000_0000_0000_0000_0000_0000_0000_0000_0000_0000_0000_0000_0000nat
}

/// The number that four limbs stand for, the least significant limb first.
pub open spec fn limbs_value(l0: u64, l1: u64, l2: u64, l3: u64) -> nat {
    (l0 as nat) + (l1 as nat) * pow2_64() + (l2 as nat) * pow2_128() + (l3 as nat) * pow2_192()
}

/// Numbers on limbs are ordered as their limbs are, the most significant
/// limb deciding first.
pub proof fn lemma_limbs_value_order(
    a0: u64,
    a1: u64,
    a2: u64,
    a3: u64,
    b0: u64,
    b1: u64,
    b2: u64,
    b3: u64,
)
    ensures
        limbs_value(a0, a1, a2, a3) < limbs_value(b0, b1, b2, b3) <==> (a3 < b3 || (a3 == b3 && (a2
            < b2 || (a2 == b2 && (a1 < b1 || (a1 == b1 && a0 < b0)))))),
{
    let low_a1 = (a0 as nat) + (a1 as nat) * pow2_64();
    let low_b1 = (b0 as nat) + (b1 as nat) * pow2_64();
    let low_a2 = low_a1 + (a2 as nat) * pow2_128();
    let low_b2 = low_b1 + (b2 as nat) * pow2_128();
    assert(low_a1 < pow2_128());
    assert(low_b1 < pow2_128());
    assert(low_a2 < pow2_192());
    assert(low_b2 < pow2_192());
    assert(limbs_value(a0, a1, a2, a3) == low_a2 + (a3 as nat) * pow2_192());
    assert(limbs_value(b0, b1, b2, b3) == low_b2 + (b3 as nat) * pow2_192());
    if a3 < b3 {
        assert((a3 as nat + 1) * pow2_192() <= (b3 as nat) * pow2_192());
    } else if b3 < a3 {
        assert((b3 as nat + 1) * pow2_192() <= (a3 as nat) * pow2_192());
    } else if a2 < b2 {
        assert((a2 as nat + 1) * pow2_128() <= (b2 as nat) * pow2_128());
    } else if b2 < a2 {
        assert((b2 as nat + 1) * pow2_128() <= (a2 as nat) * pow2_128());
    } else if a1 < b1 {
        assert((a1 as nat + 1) * pow2_64() <= (b1 as nat) * pow2_64());
    } else if b1 < a1 {
        assert((b1 as nat + 1) * pow2_64() <= (a1 as nat) * pow2_64());
    }
}

/// Four limbs stand for the same number only where they are the same limbs.
pub proof fn lemma_limbs_value_injective(
    a0: u64,
    a1: u64,
    a2: u64,
    a3: u64,
    b0: u64,
    b1: u64,
    b2: u64,
    b3: u64,
)
    requires
        limbs_value(a0, a1, a2, a3) == limbs_value(b0, b1, b2, b3),
    ensures
        a0 == b0,
        a1 == b1,
        a2 == b2,
        a3 == b3,
{
    lemma_limbs_value_order(a0, a1, a2, a3, b0, b1, b2, b3);
    lemma_limbs_value_order(b0, b1, b2, b3, a0, a1, a2, a3);
}

/// An unsigned integer below two to the power 256. Its view is the number.
#[derive(Clone, Copy, Debug, PartialEq, Eq, Structural)]
pub struct U256 {
    pub l0: u64,
    pub l1: u64,
    pub l2: u64,
    pub l3: u64,
}

impl View for U256 {
    type V = nat;

    open spec fn view(&self) -> nat {
        limbs_value(self.l0, self.l1, self.l2, self.l3)
    }
}

impl U256 {
    /// The number zero.
    pub fn zero() -> (r: U256)
        ensures
            r@ == 0,
    {
        U256 { l0: 0, l1: 0, l2: 0, l3: 0 }
    }

    /// The number `value`.
    pub fn from_u64(value: u64) -> (r: U256)
        ensures
            r@ == value,
    {
        U256 { l0: value, l1: 0, l2: 0, l3: 0 }
    }

    /// The number with the given limbs, the least significant first.
    pub fn from_limbs(limbs: [u64; 4]) -> (r: U256)
        ensures
            r@ == limbs_value(limbs[0], limbs[1], limbs[2], limbs[3]),
    {
        U256 { l0: limbs[0], l1: limbs[1], l2: limbs[2], l3: limbs[3] }
    }

    /// The four limbs, the least significant first.
    pub fn to_limbs(&self) -> (limbs: [u64; 4])
        ensures
            limbs_value(limbs[0], limbs[1], limbs[2], limbs[3]) == self@,
            limbs[0] == self.l0,
            limbs[1] == self.l1,
            limbs[2] == self.l2,
            limbs[3] == self.l3,
    {
        [self.l0, self.l1, self.l2, self.l3]
    }

    /// Whether `self` is smaller than `other`.
    pub fn lt(&self, other: &U256) -> (b: bool)
        ensures
            b == (self@ < other@),
    {
        proof {
            lemma_limbs_value_order(
                self.l0,
                self.l1,
                self.l2,
                self.l3,
                other.l0,
                other.l1,
                other.l2,
                other.l3,
            );
        }
        if self.l3 != other.l3 {
            self.l3 < other.l3
        } else if self.l2 != other.l2 {
            self.l2 < other.l2
        } else if self.l1 != other.l1 {
            self.l1 < other.l1
        } else {
            self.l0 < other.l0
        }
    }

    /// Whether `self` and `other` are the same number.
    pub fn same(&self, other: &U256) -> (b: bool)
        ensures
            b == (self@ == other@),
    {
        proof {
            if self@ == other@ {
                lemma_limbs_value_injective(
                    self.l0,
                    self.l1,
                    self.l2,
                    self.l3,
                    other.l0,
                    other.l1,
                    other.l2,
                    other.l3,
                );
            }
        }
        self.l0 == other.l0 && self.l1 == other.l1 && self.l2 == other.l2 && self.l3 == other.l3
    }

    /// Ten times `self` plus `digit`, or `None` where that does not fit in 256 bits.
    pub fn times_ten_plus(&self, digit: u8) -> (r: Option<U256>)
        ensures
            match r {
                Some(v) => v@ == self@ * 10 + digit,
                None => self@ * 10 + digit >= pow2_256(),
            },
    {
        let base: u128 = 0x1_0000_0000_0000_0000u128;
        let t0: u128 = (self.l0 as u128) * 10 + (digit as u128);
        let t1: u128 = (self.l1 as u128) * 10 + t0 / base;
        let t2: u128 = (self.l2 as u128) * 10 + t1 / base;
        let t3: u128 = (self.l3 as u128) * 10 + t2 / base;
        let v = U256 {
            l0: (t0 % base) as u64,
            l1: (t1 % base) as u64,
            l2: (t2 % base) as u64,
            l3: (t3 % base) as u64,
        };
        assert(v@ + (t3 / base) * pow2_256() == self@ * 10 + digit);
        if t3 / base == 0 {
            Some(v)
        } else {
            None
        }
    }

    /// The quotient and the remainder of the division of `self` by ten.
    pub fn div_rem_ten(&self) -> (r: (U256, u8))
        ensures
            r.0@ == self@ / 10,
            r.1 == self@ % 10,
    {
        let base: u128 = 0x1_0000_0000_0000_0000u128;
        let c3: u128 = self.l3 as u128;
        let c2: u128 = (c3 % 10) * base + (self.l2 as u128);
        let c1: u128 = (c2 % 10) * base + (self.l1 as u128);
        let c0: u128 = (c1 % 10) * base + (self.l0 as u128);
        let q = U256 {
            l0: (c0 / 10) as u64,
            l1: (c1 / 10) as u64,
            l2: (c2 / 10) as u64,
            l3: (c3 / 10) as u64,
        };
        let rem: u8 = (c0 % 10) as u8;
        assert(q@ * 10 + rem == self@);
        (q, rem)
    }

    /// Whether `self` is zero.
    pub fn is_zero(&self) -> (b: bool)
        ensures
            b == (self@ == 0),
    {
        self.l0 == 0 && self.l1 == 0 && self.l2 == 0 && self.l3 == 0
    }
}

} // verus!
