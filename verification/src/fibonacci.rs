//! Fibonacci numbers of any size, on the big integers of the `num` crate.

use crate::clock::{duration_debug, duration_text, MonotonicClock};
use crate::grouping::{decimal_mark3, grouped};
use crate::text::{all_digits, decimal, lemma_decimal_digits, render_signed, signed_decimal};
use std::time::Duration;
use vstd::prelude::*;
use vstd::string::*;

verus! {

#[verifier::external_type_specification]
#[verifier::external_body]
pub struct ExBigUint(num::bigint::BigUint);

/// The natural number that a big integer holds.
pub uninterp spec fn big_value(b: num::bigint::BigUint) -> nat;

/// Calls `BigUint::from` on a `u64`: the big integer that holds `v`.
#[verifier::external_body]
fn big_from_u64(v: u64) -> (b: num::bigint::BigUint)
    ensures
        big_value(b) == v as nat,
{
    num::bigint::BigUint::from(v)
}

/// Calls the `+` of `BigUint` with a `&BigUint` on the right: the sum of the
/// two numbers, with no upper limit.
#[verifier::external_body]
fn big_add(a: num::bigint::BigUint, b: &num::bigint::BigUint) -> (sum: num::bigint::BigUint)
    ensures
        big_value(sum) == big_value(a) + big_value(*b),
{
    a + b
}

/// Calls `BigUint::to_str_radix` with radix 10: the number's decimal digits,
/// most significant first, `0` for zero.
#[verifier::external_body]
fn big_to_decimal(b: &num::bigint::BigUint) -> (s: String)
    ensures
        s@ == decimal(big_value(*b)),
{
    b.to_str_radix(10)
}

/// The Fibonacci numbers: 1, 1, 2, 3, 5, ... from the first on, and zero for
/// every index below one.
pub open spec fn fib_spec(n: int) -> nat
    decreases n,
{
    if n <= 0 {
        0
    } else if n <= 2 {
        1
    } else {
        fib_spec(n - 1) + fib_spec(n - 2)
    }
}

/// The `n`-th Fibonacci number.
pub fn fib(n: i32) -> (result: num::bigint::BigUint)
    ensures
        big_value(result) == fib_spec(n as int),
{
    if n <= 0 {
        return big_from_u64(0u64);
    }
    if n == 1 || n == 2 {
        return big_from_u64(1u64);
    }
    let mut fib_prev = big_from_u64(1u64);
    let mut fib_current = big_from_u64(2u64);
    assert(fib_spec(3) == 2) by {
        reveal_with_fuel(fib_spec, 3);
    }
    let mut k: i32 = 3;
    while k < n
        invariant
            3 <= k <= n,
            big_value(fib_prev) == fib_spec(k - 1),
            big_value(fib_current) == fib_spec(k as int),
        decreases n - k,
    {
        let sum = big_add(fib_prev, &fib_current);
        fib_prev = fib_current;
        fib_current = sum;
        k = k + 1;
    }
    fib_current
}

/// The line that reports one run: the index, the number found with its
/// digits grouped by thousands, and the text of the time taken.
pub open spec fn fib_text(n: int, value: nat, took: Seq<char>) -> Seq<char> {
    "fib: "@ + signed_decimal(n) + " = result: "@ + grouped(decimal(value)) + " took: "@ + took
}

/// Words the line that reports that the `n`-th Fibonacci number is `result`
/// and took `elapsed` to find. The time is written as std's `Debug` writes a
/// duration.
pub fn fib_line(n: i32, result: &num::bigint::BigUint, elapsed: &Duration) -> (line: String)
    ensures
        line@ == fib_text(n as int, big_value(*result), duration_debug(*elapsed)),
{
    let digits = big_to_decimal(result);
    proof {
        lemma_decimal_digits(big_value(*result));
        lemma_digits_are_ascii(digits@);
    }
    let result_dec = decimal_mark3(digits.as_str());
    let mut line = String::from_str("fib: ");
    let index = render_signed(n);
    line.append(index.as_str());
    line.append(" = result: ");
    line.append(result_dec.as_str());
    line.append(" took: ");
    let time = duration_text(elapsed);
    line.append(time.as_str());
    line
}

/// A text of decimal digits is ASCII.
proof fn lemma_digits_are_ascii(s: Seq<char>)
    requires
        all_digits(s),
    ensures
        vstd::utf8::is_ascii_chars(s),
{
}

/// One run of the calculator: the number found, the time it took, and the
/// line that reports both.
pub struct FibRun {
    /// The Fibonacci number.
    pub result: num::bigint::BigUint,
    /// The time that the calculation took.
    pub elapsed: Duration,
    /// The line that reports the run.
    pub line: String,
}

/// Finds the `n`-th Fibonacci number, measures how long that takes, and
/// words the line that reports it.
pub fn run_fib(n: i32) -> (run: FibRun)
    ensures
        big_value(run.result) == fib_spec(n as int),
        run.line@ == fib_text(n as int, fib_spec(n as int), duration_debug(run.elapsed)),
{
    let clock = MonotonicClock::new();
    let result = fib(n);
    let elapsed = clock.elapsed();
    let line = fib_line(n, &result, &elapsed);
    FibRun { result, elapsed, line }
}

} // verus!
