//! Decimal text of natural numbers.

use vstd::prelude::*;
use vstd::string::*;

verus! {

/// The character of one decimal digit.
pub open spec fn digit_char(d: nat) -> char
    recommends
        d < 10,
{
    if d == 0 {
        '0'
    } else if d == 1 {
        '1'
    } else if d == 2 {
        '2'
    } else if d == 3 {
        '3'
    } else if d == 4 {
        '4'
    } else if d == 5 {
        '5'
    } else if d == 6 {
        '6'
    } else if d == 7 {
        '7'
    } else if d == 8 {
        '8'
    } else {
        '9'
    }
}

/// The decimal digits of `n`, most significant first, without leading zeros;
/// zero is the single digit `0`.
pub open spec fn decimal(n: nat) -> Seq<char>
    decreases n,
{
    if n < 10 {
        seq![digit_char(n)]
    } else {
        decimal(n / 10).push(digit_char(n % 10))
    }
}

/// Whether every character of `s` is a decimal digit.
pub open spec fn all_digits(s: Seq<char>) -> bool {
    forall|i: int| 0 <= i < s.len() ==> '0' <= #[trigger] s[i] <= '9'
}

/// The decimal text of a number is never empty and holds digits only.
pub proof fn lemma_decimal_digits(n: nat)
    ensures
        decimal(n).len() >= 1,
        all_digits(decimal(n)),
    decreases n,
{
    if n >= 10 {
        lemma_decimal_digits(n / 10);
    }
}

/// The text of one decimal digit.
pub fn digit_str(d: u8) -> (s: &'static str)
    requires
        d < 10,
    ensures
        s@ == seq![digit_char(d as nat)],
{
    proof {
        reveal_strlit("0");
        reveal_strlit("1");
        reveal_strlit("2");
        reveal_strlit("3");
        reveal_strlit("4");
        reveal_strlit("5");
        reveal_strlit("6");
        reveal_strlit("7");
        reveal_strlit("8");
        reveal_strlit("9");
    }
    let s = if d == 0 {
        "0"
    } else if d == 1 {
        "1"
    } else if d == 2 {
        "2"
    } else if d == 3 {
        "3"
    } else if d == 4 {
        "4"
    } else if d == 5 {
        "5"
    } else if d == 6 {
        "6"
    } else if d == 7 {
        "7"
    } else if d == 8 {
        "8"
    } else {
        "9"
    };
    assert(s@ =~= seq![digit_char(d as nat)]);
    s
}

/// Writes `n` in decimal.
pub fn render_decimal(n: u128) -> (s: String)
    ensures
        s@ == decimal(n as nat),
    decreases n,
{
    if n < 10 {
        String::from_str(digit_str(n as u8))
    } else {
        let mut s = render_decimal(n / 10);
        s.append(digit_str((n % 10) as u8));
        s
    }
}

/// The decimal text of an integer, with a minus sign in front of a negative
/// one.
pub open spec fn signed_decimal(n: int) -> Seq<char> {
    if n < 0 {
        "-"@ + decimal((-n) as nat)
    } else {
        decimal(n as nat)
    }
}

/// Writes `n` in decimal, with a minus sign where it is negative.
pub fn render_signed(n: i32) -> (s: String)
    ensures
        s@ == signed_decimal(n as int),
{
    if n < 0 {
        let magnitude: u128 = (-(n as i64)) as u128;
        let digits = render_decimal(magnitude);
        String::from_str("-").concat(digits.as_str())
    } else {
        render_decimal(n as u128)
    }
}

/// Three decimal digits for a number below a thousand, zeros in front.
pub open spec fn three_digits(k: nat) -> Seq<char>
    recommends
        k < 1_000,
{
    seq![digit_char(k / 100), digit_char((k / 10) % 10), digit_char(k % 10)]
}

/// A time of `nanos` nanoseconds written in milliseconds with three
/// decimals, cut off and not rounded, and the unit behind it.
pub open spec fn millis_text(nanos: nat) -> Seq<char> {
    decimal(nanos / 1_000_000) + "."@ + three_digits((nanos / 1_000) % 1_000) + "ms"@
}

/// Writes a number below a thousand with three digits.
fn render_three_digits(k: u128) -> (s: String)
    requires
        k < 1_000,
    ensures
        s@ == three_digits(k as nat),
{
    let mut s = String::from_str(digit_str((k / 100) as u8));
    s.append(digit_str(((k / 10) % 10) as u8));
    s.append(digit_str((k % 10) as u8));
    assert(s@ =~= three_digits(k as nat));
    s
}

/// Writes a time of `nanos` nanoseconds in milliseconds with three decimals.
pub fn render_millis(nanos: u128) -> (s: String)
    ensures
        s@ == millis_text(nanos as nat),
{
    let mut s = render_decimal(nanos / 1_000_000);
    s.append(".");
    let fraction = render_three_digits((nanos / 1_000) % 1_000);
    s.append(fraction.as_str());
    s.append("ms");
    s
}

} // verus!
