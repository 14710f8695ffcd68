//! The English ordinal suffix, as a rule on values and as a rule on the tail
//! of a decimal string.

use vstd::prelude::*;
use vstd::string::*;
use vstd::arithmetic::div_mod::{lemma_breakdown, lemma_fundamental_div_mod_converse};
use crate::decimal::{decimal_of, digit_char, digits_of};

verus! {

/// The absolute value of `n`.
pub open spec fn magnitude_of(n: int) -> nat {
    if n < 0 {
        (-n) as nat
    } else {
        n as nat
    }
}

/// The ordinal suffix of `n`: "th" when its magnitude ends in 11, 12 or 13;
/// otherwise "st", "nd" or "rd" for a last digit of 1, 2 or 3; "th" for the rest.
pub open spec fn ordinal_suffix(n: int) -> Seq<char> {
    let m = magnitude_of(n);
    if 11 <= m % 100 <= 13 {
        seq!['t', 'h']
    } else if m % 10 == 1 {
        seq!['s', 't']
    } else if m % 10 == 2 {
        seq!['n', 'd']
    } else if m % 10 == 3 {
        seq!['r', 'd']
    } else {
        seq!['t', 'h']
    }
}

/// Whether `s` ends with the two characters '1' and `c`.
pub open spec fn ends_in_teen(s: Seq<char>, c: char) -> bool {
    s.len() >= 2 && s[s.len() - 2] == '1' && s[s.len() - 1] == c
}

/// Whether `s` ends with the character `c`.
pub open spec fn ends_in(s: Seq<char>, c: char) -> bool {
    s.len() >= 1 && s[s.len() - 1] == c
}

/// The ordinal suffix read off the tail of a decimal string: an ending of
/// "11", "12" or "13" takes "th", checked before the endings "1", "2" and "3".
pub open spec fn suffix_of_digits(s: Seq<char>) -> Seq<char> {
    if ends_in_teen(s, '1') || ends_in_teen(s, '2') || ends_in_teen(s, '3') {
        seq!['t', 'h']
    } else if ends_in(s, '1') {
        seq!['s', 't']
    } else if ends_in(s, '2') {
        seq!['n', 'd']
    } else if ends_in(s, '3') {
        seq!['r', 'd']
    } else {
        seq!['t', 'h']
    }
}

proof fn lemma_digit_char_injective(a: int, b: int)
    requires
        0 <= a < 10,
        0 <= b < 10,
        digit_char(a) == digit_char(b),
    ensures
        a == b,
{
}

proof fn lemma_last_two_digits(m: nat)
    ensures
        digits_of(m).len() >= 1,
        digits_of(m)[digits_of(m).len() - 1] == digit_char((m % 10) as int),
        m >= 10 ==> digits_of(m).len() >= 2 && digits_of(m)[digits_of(m).len() - 2]
            == digit_char(((m / 10) % 10) as int),
        m < 10 ==> digits_of(m).len() == 1,
    decreases m,
{
    if m >= 10 {
        lemma_last_two_digits(m / 10);
    }
}

/// The tail rule on the digits of a magnitude agrees with the rule on values.
pub proof fn lemma_suffix_of_magnitude_digits(m: nat)
    ensures
        suffix_of_digits(digits_of(m)) == ordinal_suffix(m as int),
{
    lemma_last_two_digits(m);
    let s = digits_of(m);
    let u = m % 10;
    let t = (m / 10) % 10;
    lemma_breakdown(m as int, 10, 10);
    assert(m % 100 == 10 * t + u);
    if m >= 10 && s[s.len() - 2] == '1' {
        lemma_digit_char_injective(t as int, 1);
    }
    if m >= 10 && 11 <= m % 100 <= 13 {
        assert(t == 1);
    }
    if m < 10 {
        assert(m % 100 == m);
    }
}

/// Reading the suffix off the tail of the default decimal form of `n`, sign
/// included, gives the ordinal suffix of `n`.
pub proof fn lemma_suffix_of_decimal(n: int)
    ensures
        suffix_of_digits(decimal_of(n)) == ordinal_suffix(n),
{
    let m = magnitude_of(n);
    lemma_suffix_of_magnitude_digits(m);
    if n < 0 {
        let d = digits_of(m);
        let s = seq!['-'] + d;
        lemma_last_two_digits(m);
        assert(s[s.len() - 1] == d[d.len() - 1]);
        if d.len() >= 2 {
            assert(s[s.len() - 2] == d[d.len() - 2]);
        } else {
            assert(s[s.len() - 2] == '-');
        }
    }
}

/// The suffix does not depend on the sign: `n` and `-n` take the same one.
pub proof fn lemma_suffix_sign_independent(n: int)
    ensures
        ordinal_suffix(n) == ordinal_suffix(-n),
{
    assert(magnitude_of(n) == magnitude_of(-n));
}

/// Every `n` with `n mod 100` in {11, 12, 13} takes "th".
pub proof fn lemma_teens_take_th(n: int)
    requires
        11 <= n % 100 <= 13,
    ensures
        ordinal_suffix(n) == seq!['t', 'h'],
{
    if n < 0 {
        let r = n % 100;
        let q = n / 100;
        assert(n == 100 * q + r);
        let m = -n;
        assert(m == 100 * (-q - 1) + (100 - r));
        lemma_fundamental_div_mod_converse(m, 100, -q - 1, 100 - r);
        assert(m % 100 == 100 - r);
        lemma_breakdown(m, 10, 10);
        assert(87 <= m % 100 <= 89);
        assert(7 <= m % 10 <= 9);
    }
}

/// Outside the teens modulo 100, the suffix follows the last digit of the
/// magnitude: 1 takes "st", 2 takes "nd", 3 takes "rd", any other "th".
pub proof fn lemma_suffix_by_last_digit(n: int)
    requires
        !(11 <= magnitude_of(n) % 100 <= 13),
    ensures
        magnitude_of(n) % 10 == 1 ==> ordinal_suffix(n) == seq!['s', 't'],
        magnitude_of(n) % 10 == 2 ==> ordinal_suffix(n) == seq!['n', 'd'],
        magnitude_of(n) % 10 == 3 ==> ordinal_suffix(n) == seq!['r', 'd'],
        !(1 <= magnitude_of(n) % 10 <= 3) ==> ordinal_suffix(n) == seq!['t', 'h'],
{
}

/// The ordinal suffix of a number given by its decimal string: "th" when the
/// string ends in "11", "12" or "13", else "st", "nd" or "rd" when it ends in
/// "1", "2" or "3", else "th". Only the tail is read, so a leading sign and
/// numbers of any size are handled alike.
pub fn suffix_of_decimal(s: &str) -> (r: &'static str)
    ensures
        r@ == suffix_of_digits(s@),
{
    proof {
        reveal_strlit("st");
        reveal_strlit("nd");
        reveal_strlit("rd");
        reveal_strlit("th");
    }
    let len = s.unicode_len();
    if len == 0 {
        return "th";
    }
    let last = s.get_char(len - 1);
    let before_last = if len >= 2 {
        s.get_char(len - 2)
    } else {
        ' '
    };
    if before_last == '1' && (last == '1' || last == '2' || last == '3') {
        "th"
    } else if last == '1' {
        "st"
    } else if last == '2' {
        "nd"
    } else if last == '3' {
        "rd"
    } else {
        "th"
    }
}

} // verus!
