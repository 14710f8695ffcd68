//! Decimal rendering of integers, stated over their mathematical value.

use vstd::prelude::*;
use vstd::string::*;

verus! {

/// The character of a decimal digit `d` (`0 <= d < 10`).
pub open spec fn digit_char(d: int) -> char {
    if d == 0 {
        '0'
    } else if d == 1 {
        '1'
    } else if d == 2 {
        '2'
    } else if d == 3 {
        '3'
    } else if d == 4 {
        '4'
    } else if d == 5 {
        '5'
    } else if d == 6 {
        '6'
    } else if d == 7 {
        '7'
    } else if d == 8 {
        '8'
    } else {
        '9'
    }
}

/// The decimal digits of `m`, most significant first, with no leading zeros
/// (`0` is the single digit `'0'`).
pub open spec fn digits_of(m: nat) -> Seq<char>
    decreases m,
{
    if m < 10 {
        seq![digit_char(m as int)]
    } else {
        digits_of(m / 10).push(digit_char((m % 10) as int))
    }
}

/// The default decimal form of `n`: a minus sign for negative values,
/// then the digits of its magnitude.
pub open spec fn decimal_of(n: int) -> Seq<char> {
    if n < 0 {
        seq!['-'] + digits_of((-n) as nat)
    } else {
        digits_of(n as nat)
    }
}

/// The one-character string of a decimal digit.
fn digit_str(d: u128) -> (r: &'static str)
    requires
        d < 10,
    ensures
        r@ == seq![digit_char(d as int)],
{
    proof {
        reveal_strlit("0");
        reveal_strlit("1");
        reveal_strlit("2");
        reveal_strlit("3");
        reveal_strlit("4");
        reveal_strlit("5");
        reveal_strlit("6");
        reveal_strlit("7");
        reveal_strlit("8");
        reveal_strlit("9");
    }
    if d == 0 {
        "0"
    } else if d == 1 {
        "1"
    } else if d == 2 {
        "2"
    } else if d == 3 {
        "3"
    } else if d == 4 {
        "4"
    } else if d == 5 {
        "5"
    } else if d == 6 {
        "6"
    } else if d == 7 {
        "7"
    } else if d == 8 {
        "8"
    } else {
        "9"
    }
}

/// Renders `m` in decimal, most significant digit first.
pub fn decimal_digits(m: u128) -> (r: String)
    ensures
        r@ == digits_of(m as nat),
{
    let mut acc = String::from_str(digit_str(m % 10));
    let mut x: u128 = m / 10;
    proof {
        if x > 0 {
            assert(digits_of(m as nat) =~= digits_of(x as nat) + acc@);
        }
    }
    while x > 0
        invariant
            x == 0 ==> acc@ == digits_of(m as nat),
            x > 0 ==> digits_of(m as nat) == digits_of(x as nat) + acc@,
        decreases x,
    {
        let next = String::from_str(digit_str(x % 10)).concat(acc.as_str());
        proof {
            let y = (x / 10) as nat;
            if y > 0 {
                assert(digits_of(x as nat) + acc@ =~= digits_of(y) + next@);
            } else {
                assert(digits_of(x as nat) + acc@ =~= next@);
            }
        }
        acc = next;
        x = x / 10;
    }
    acc
}

/// Renders a value given by its sign and magnitude in default decimal form.
pub fn magnitude_decimal(negative: bool, magnitude: u128) -> (r: String)
    ensures
        r@ == decimal_of(if negative { -(magnitude as int) } else { magnitude as int }),
{
    let digits = decimal_digits(magnitude);
    if negative && magnitude > 0 {
        let minus = "-";
        proof {
            reveal_strlit("-");
        }
        String::from_str(minus).concat(digits.as_str())
    } else {
        digits
    }
}

} // verus!
