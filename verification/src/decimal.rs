//! Decimal numerals: which strings are numerals, which number one stands for,
//! and reading one into a [`U256`] below a bound.

use vstd::prelude::*;
use crate::uint::U256;

verus! {

/// Whether `c` is one of the digits `0` to `9`.
pub open spec fn is_decimal_digit(c: char) -> bool {
    48 <= (c as u32) && (c as u32) <= 57
}

/// The value of the digit `c`; zero for any other character.
pub open spec fn digit_value(c: char) -> nat {
    if is_decimal_digit(c) {
        ((c as u32) - 48) as nat
    } else {
        0
    }
}

/// The number that the characters of `s` stand for in base ten, the most
/// significant digit first.
pub open spec fn decimal_value(s: Seq<char>) -> nat
    decreases s.len(),
{
    if s.len() == 0 {
        0
    } else {
        decimal_value(s.drop_last()) * 10 + digit_value(s.last())
    }
}

/// Whether `s` is a numeral: one digit or more, nothing but digits, and no
/// leading zero unless the numeral is `0` itself.
pub open spec fn is_numeral(s: Seq<char>) -> bool {
    &&& s.len() > 0
    &&& forall|i: int| 0 <= i < s.len() ==> is_decimal_digit(#[trigger] s[i])
    &&& (s.len() > 1 ==> s[0] != '0')
}

/// The value of a numeral is ten times that of the numeral without its last
/// digit, plus the last digit.
pub proof fn lemma_decimal_value_step(s: Seq<char>, i: int)
    requires
        0 <= i < s.len(),
    ensures
        decimal_value(s.take(i + 1)) == decimal_value(s.take(i)) * 10 + digit_value(s[i]),
{
    assert(s.take(i + 1).drop_last() =~= s.take(i));
}

/// A prefix of a numeral stands for a number that is not larger.
pub proof fn lemma_decimal_prefix_le(s: Seq<char>, i: int)
    requires
        0 <= i <= s.len(),
    ensures
        decimal_value(s.take(i)) <= decimal_value(s),
    decreases s.len() - i,
{
    if i == s.len() {
        assert(s.take(i) =~= s);
    } else {
        lemma_decimal_value_step(s, i);
        lemma_decimal_prefix_le(s, i + 1);
    }
}

/// Reads the numeral `s` into a number below `bound`.
///
/// The result is `Some` exactly when `s` is a numeral whose value is below
/// `bound`, and then it is that value.
pub fn parse_decimal(s: &str, bound: &U256) -> (r: Option<U256>)
    ensures
        r is Some <==> is_numeral(s@) && decimal_value(s@) < bound@,
        r matches Some(v) ==> v@ == decimal_value(s@),
{
    let n: usize = s.unicode_len();
    if n == 0 {
        return None;
    }
    if n > 1 && s.get_char(0) == '0' {
        return None;
    }
    let mut acc: U256 = U256::zero();
    let mut i: usize = 0;
    assert(s@.take(0) =~= Seq::<char>::empty());
    while i < n
        invariant
            n == s@.len(),
            0 <= i <= n,
            forall|j: int| 0 <= j < i ==> is_decimal_digit(#[trigger] s@[j]),
            acc@ == decimal_value(s@.take(i as int)),
            i > 0 ==> acc@ < bound@,
        decreases n - i,
    {
        let c: char = s.get_char(i);
        let code: u32 = c as u32;
        if code < 48 || code > 57 {
            return None;
        }
        let digit: u8 = (code - 48) as u8;
        proof {
            lemma_decimal_value_step(s@, i as int);
            lemma_decimal_prefix_le(s@, i as int + 1);
        }
        match acc.times_ten_plus(digit) {
            None => {
                return None;
            },
            Some(next) => {
                if !next.lt(bound) {
                    return None;
                }
                acc = next;
            },
        }
        i = i + 1;
    }
    assert(s@.take(n as int) =~= s@);
    Some(acc)
}


/// The digit that stands for `d`, for `d` below ten.
pub open spec fn digit_char(d: nat) -> char {
    if d == 0 {
        '0'
    } else if d == 1 {
        '1'
    } else if d == 2 {
        '2'
    } else if d == 3 {
        '3'
    } else if d == 4 {
        '4'
    } else if d == 5 {
        '5'
    } else if d == 6 {
        '6'
    } else if d == 7 {
        '7'
    } else if d == 8 {
        '8'
    } else {
        '9'
    }
}

/// The numeral of `n`: its digits in base ten, the most significant first,
/// without a leading zero; `0` for zero.
pub open spec fn decimal_digits(n: nat) -> Seq<char>
    decreases n,
{
    if n < 10 {
        seq![digit_char(n)]
    } else {
        decimal_digits(n / 10).push(digit_char(n % 10))
    }
}

/// The numeral of a number is a numeral, and it stands for the number.
pub proof fn lemma_decimal_digits(n: nat)
    ensures
        is_numeral(decimal_digits(n)),
        decimal_value(decimal_digits(n)) == n,
        n > 0 ==> decimal_digits(n)[0] != '0',
    decreases n,
{
    let s = decimal_digits(n);
    if n < 10 {
        assert(s.drop_last() =~= Seq::<char>::empty());
        assert(is_decimal_digit(s[0]) && digit_value(s[0]) == n);
        assert(decimal_value(s) == decimal_value(s.drop_last()) * 10 + digit_value(s.last()));
    } else {
        let front = decimal_digits(n / 10);
        lemma_decimal_digits(n / 10);
        assert(s.drop_last() =~= front);
        assert(is_decimal_digit(s.last()) && digit_value(s.last()) == n % 10);
        assert(s[0] == front[0]);
        assert forall|i: int| 0 <= i < s.len() implies is_decimal_digit(#[trigger] s[i]) by {
            if i < front.len() {
                assert(s[i] == front[i]);
            }
        }
    }
}

/// The text of the digit that stands for `d`.
fn digit_text(d: u8) -> (t: &'static str)
    requires
        d < 10,
    ensures
        t@ == seq![digit_char(d as nat)],
{
    proof {
        reveal_strlit("0");
        reveal_strlit("1");
        reveal_strlit("2");
        reveal_strlit("3");
        reveal_strlit("4");
        reveal_strlit("5");
        reveal_strlit("6");
        reveal_strlit("7");
        reveal_strlit("8");
        reveal_strlit("9");
    }
    let t: &'static str = if d == 0 {
        "0"
    } else if d == 1 {
        "1"
    } else if d == 2 {
        "2"
    } else if d == 3 {
        "3"
    } else if d == 4 {
        "4"
    } else if d == 5 {
        "5"
    } else if d == 6 {
        "6"
    } else if d == 7 {
        "7"
    } else if d == 8 {
        "8"
    } else {
        "9"
    };
    assert(t@ =~= seq![digit_char(d as nat)]);
    t
}

/// Writes `value` as its numeral.
pub fn to_decimal(value: &U256) -> (s: String)
    ensures
        s@ == decimal_digits(value@),
        is_numeral(s@),
        decimal_value(s@) == value@,
{
    proof {
        lemma_decimal_digits(value@);
    }
    // the digits from the least significant up
    let mut low: Vec<u8> = Vec::new();
    let mut cur: U256 = *value;
    loop
        invariant_except_break
            forall|j: int| 0 <= j < low@.len() ==> (#[trigger] low@[j]) < 10,
            decimal_digits(value@) == decimal_digits(cur@) + Seq::new(
                low@.len(),
                |j: int| digit_char(low@[low@.len() - 1 - j] as nat),
            ),
        ensures
            low@.len() > 0,
            forall|j: int| 0 <= j < low@.len() ==> (#[trigger] low@[j]) < 10,
            decimal_digits(value@) == Seq::new(
                low@.len(),
                |j: int| digit_char(low@[low@.len() - 1 - j] as nat),
            ),
        decreases cur@,
    {
        let ghost before = Seq::new(
            low@.len(),
            |j: int| digit_char(low@[low@.len() - 1 - j] as nat),
        );
        let ghost old_low = low@;
        let (q, d) = cur.div_rem_ten();
        low.push(d);
        let ghost after = Seq::new(
            low@.len(),
            |j: int| digit_char(low@[low@.len() - 1 - j] as nat),
        );
        assert(after =~= seq![digit_char(d as nat)] + before) by {
            assert forall|j: int| 0 <= j < after.len() implies after[j] == (seq![
                digit_char(d as nat),
            ] + before)[j] by {
                if j > 0 {
                    assert(low@[low@.len() - 1 - j] == old_low[old_low.len() - 1 - (j - 1)]);
                }
            }
        }
        if q.is_zero() {
            assert(decimal_digits(cur@) =~= seq![digit_char(d as nat)]);
            assert(decimal_digits(value@) =~= after);
            break;
        }
        assert(decimal_digits(cur@) =~= decimal_digits(q@).push(digit_char(d as nat)));
        assert(decimal_digits(value@) =~= decimal_digits(q@) + after);
        cur = q;
    }
    let n: usize = low.len();
    let mut s: String = String::new();
    let mut i: usize = 0;
    let ghost digits = decimal_digits(value@);
    while i < n
        invariant
            n == low@.len(),
            0 <= i <= n,
            forall|j: int| 0 <= j < low@.len() ==> (#[trigger] low@[j]) < 10,
            digits == Seq::new(low@.len(), |j: int| digit_char(low@[low@.len() - 1 - j] as nat)),
            s@ == digits.take(i as int),
        decreases n - i,
    {
        let d: u8 = low[n - 1 - i];
        s.append(digit_text(d));
        assert(s@ =~= digits.take(i + 1));
        i = i + 1;
    }
    assert(digits.take(n as int) =~= digits);
    s
}

} // verus!
