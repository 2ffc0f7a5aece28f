//! Decimal rendering of job identifiers and ratings, used for the
//! observable attributes and for settlement token ids.

use vstd::prelude::*;

verus! {

/// The ASCII character of the decimal digit `d % 10`.
pub open spec fn digit_char(d: nat) -> char {
    ((48 + d % 10) as u8) as char
}

/// The decimal numeral of `n`, most significant digit first, with no
/// leading zero except for `n == 0`, which is rendered as `"0"`.
pub open spec fn decimal_digits(n: nat) -> Seq<char>
    decreases n,
{
    if n < 10 {
        seq![digit_char(n)]
    } else {
        decimal_digits(n / 10).push(digit_char(n % 10))
    }
}

/// The one-character string of the decimal digit `d`.
fn digit_str(d: u64) -> (s: &'static str)
    requires
        d < 10,
    ensures
        s@ == seq![digit_char(d as nat)],
{
    let s: &'static str = if d == 0 {
        "0"
    } else if d == 1 {
        "1"
    } else if d == 2 {
        "2"
    } else if d == 3 {
        "3"
    } else if d == 4 {
        "4"
    } else if d == 5 {
        "5"
    } else if d == 6 {
        "6"
    } else if d == 7 {
        "7"
    } else if d == 8 {
        "8"
    } else {
        "9"
    };
    proof {
        reveal_strlit("0");
        reveal_strlit("1");
        reveal_strlit("2");
        reveal_strlit("3");
        reveal_strlit("4");
        reveal_strlit("5");
        reveal_strlit("6");
        reveal_strlit("7");
        reveal_strlit("8");
        reveal_strlit("9");
        assert(s@ =~= seq![digit_char(d as nat)]);
    }
    s
}

/// Renders `n` in decimal.
pub fn u64_to_decimal(n: u64) -> (s: String)
    ensures
        s@ == decimal_digits(n as nat),
{
    let mut s = String::from_str(digit_str(n % 10));
    let mut m = n / 10;
    proof {
        if n >= 10 {
            assert(decimal_digits(n as nat) == decimal_digits(m as nat) + s@);
        }
    }
    while m > 0
        invariant
            m == 0 ==> s@ == decimal_digits(n as nat),
            m > 0 ==> decimal_digits(n as nat) == decimal_digits(m as nat) + s@,
        decreases m,
    {
        let ghost m0 = m as nat;
        let ghost s0 = s@;
        let d = m % 10;
        let prefix = String::from_str(digit_str(d));
        s = prefix.concat(s.as_str());
        m = m / 10;
        proof {
            if m0 >= 10 {
                assert(decimal_digits(m0) == decimal_digits(m0 / 10).push(digit_char(m0 % 10)));
                assert(decimal_digits(m0 / 10).push(digit_char(m0 % 10)) =~= decimal_digits(
                    m0 / 10,
                ) + seq![digit_char(m0 % 10)]);
                assert(decimal_digits(n as nat) =~= decimal_digits(m as nat) + s@);
            } else {
                assert(decimal_digits(m0) == seq![digit_char(m0)]);
                assert(s@ =~= decimal_digits(m0) + s0);
                assert(s@ =~= decimal_digits(n as nat));
            }
        }
    }
    s
}

} // verus!
