//! Fixed-point temperatures and the Celsius/Fahrenheit conversion.
//!
//! A temperature is stored in ten-thousandths of a degree, so `450000`
//! stands for 45 degrees.  Celsius is the canonical unit; Fahrenheit is
//! derived on read by `f = c * 9/5 + 32`, carried out in integers with the
//! quotient rounded toward zero.

use vstd::arithmetic::div_mod::lemma_fundamental_div_mod;
use vstd::arithmetic::div_mod::lemma_fundamental_div_mod_converse_div;
use vstd::arithmetic::div_mod::lemma_fundamental_div_mod_converse_mod;
use vstd::prelude::*;

verus! {

/// Fixed-point units in one degree.
pub const TEMP_SCALE: i64 = 10_000;

/// Shown in place of an unavailable temperature: 9999.9999 degrees, a
/// deliberately out-of-band magnitude.
pub const TEMP_SENTINEL: i64 = 99_999_999;

/// Largest magnitude a stored temperature may have, so that the
/// conversion arithmetic stays inside `i64`.
pub const TEMP_LIMIT: i64 = 1_000_000_000_000_000;

/// Division with the quotient rounded toward zero, for a positive divisor.
pub open spec fn tdiv(a: int, b: int) -> int {
    if a >= 0 {
        a / b
    } else {
        -((-a) / b)
    }
}

/// The Fahrenheit equivalent of a Celsius value, in fixed-point units:
/// `f = c * 9/5 + 32`.
pub open spec fn spec_to_fahrenheit(c: int) -> int {
    tdiv(9 * c, 5) + 32 * TEMP_SCALE
}

/// The Celsius equivalent of a Fahrenheit value, in fixed-point units:
/// `c = (f - 32) * 5/9`.
pub open spec fn spec_to_celsius(f: int) -> int {
    tdiv(5 * (f - 32 * TEMP_SCALE), 9)
}

/// Converts a Celsius value to Fahrenheit.
pub fn to_fahrenheit(c: i64) -> (f: i64)
    requires
        -TEMP_LIMIT <= c <= TEMP_LIMIT,
    ensures
        f == spec_to_fahrenheit(c as int),
{
    if c >= 0 {
        let q: u64 = (c as u64) * 9 / 5;
        q as i64 + 32 * TEMP_SCALE
    } else {
        let q: u64 = ((-c) as u64) * 9 / 5;
        -(q as i64) + 32 * TEMP_SCALE
    }
}

/// Converts a Fahrenheit value back to Celsius.
pub fn to_celsius(f: i64) -> (c: i64)
    requires
        -TEMP_LIMIT <= f <= TEMP_LIMIT,
    ensures
        c == spec_to_celsius(f as int),
{
    if f >= 32 * TEMP_SCALE {
        let q: u64 = ((f - 32 * TEMP_SCALE) as u64) * 5 / 9;
        q as i64
    } else {
        let q: u64 = ((32 * TEMP_SCALE - f) as u64) * 5 / 9;
        -(q as i64)
    }
}

/// Converting a Celsius value to Fahrenheit and back recovers it to within
/// one fixed-point unit (one ten-thousandth of a degree), never growing
/// its magnitude, and exactly when the value is a multiple of five units.
pub proof fn lemma_celsius_round_trip(c: int)
    ensures
        c - 1 <= spec_to_celsius(spec_to_fahrenheit(c)) <= c + 1,
        c >= 0 ==> 0 <= spec_to_celsius(spec_to_fahrenheit(c)) <= c,
        c <= 0 ==> c <= spec_to_celsius(spec_to_fahrenheit(c)) <= 0,
        c % 5 == 0 ==> spec_to_celsius(spec_to_fahrenheit(c)) == c,
{
    if c >= 0 {
        let a = 9 * c;
        let q = a / 5;
        let r = a % 5;
        lemma_fundamental_div_mod(a, 5);
        assert(spec_to_fahrenheit(c) == q + 32 * TEMP_SCALE);
        assert(spec_to_celsius(spec_to_fahrenheit(c)) == tdiv(5 * q, 9));
        assert(5 * q == a - r);
        if r == 0 {
            lemma_fundamental_div_mod_converse_div(a, 9, c, 0);
            assert(spec_to_celsius(spec_to_fahrenheit(c)) == c);
        } else {
            assert(a - r == (c - 1) * 9 + (9 - r));
            lemma_fundamental_div_mod_converse_div(a - r, 9, c - 1, 9 - r);
            assert(spec_to_celsius(spec_to_fahrenheit(c)) == c - 1);
            if c % 5 == 0 {
                lemma_fundamental_div_mod(c, 5);
                assert(a == (9 * (c / 5)) * 5 + 0);
                lemma_fundamental_div_mod_converse_mod(a, 5, 9 * (c / 5), 0);
                assert(false);
            }
        }
    } else {
        let n = -c;
        let a = 9 * n;
        let q = a / 5;
        let r = a % 5;
        lemma_fundamental_div_mod(a, 5);
        assert(spec_to_fahrenheit(c) == -q + 32 * TEMP_SCALE);
        assert(spec_to_celsius(spec_to_fahrenheit(c)) == tdiv(-(5 * q), 9));
        assert(5 * q == a - r);
        if r == 0 {
            lemma_fundamental_div_mod_converse_div(a, 9, n, 0);
            assert(spec_to_celsius(spec_to_fahrenheit(c)) == c);
        } else {
            assert(a - r == (n - 1) * 9 + (9 - r));
            lemma_fundamental_div_mod_converse_div(a - r, 9, n - 1, 9 - r);
            assert(spec_to_celsius(spec_to_fahrenheit(c)) == c + 1);
            if c % 5 == 0 {
                lemma_fundamental_div_mod(c, 5);
                assert(a == (-9 * (c / 5)) * 5 + 0);
                lemma_fundamental_div_mod_converse_mod(a, 5, -9 * (c / 5), 0);
                assert(false);
            }
        }
    }
}

/// Converting a Fahrenheit display value to Celsius and to Fahrenheit
/// again recovers it to within two fixed-point units: the display path's
/// double conversion is stable up to the rounding error.
pub proof fn lemma_fahrenheit_round_trip(c: int)
    ensures
        spec_to_fahrenheit(c) - 2 <= spec_to_fahrenheit(spec_to_celsius(spec_to_fahrenheit(c)))
            <= spec_to_fahrenheit(c) + 2,
{
    let c2 = spec_to_celsius(spec_to_fahrenheit(c));
    lemma_celsius_round_trip(c);
    if c2 == c {
    } else if c >= 0 {
        assert(c2 == c - 1 && c >= 1);
        let q1 = (9 * c) / 5;
        let r1 = (9 * c) % 5;
        let q2 = (9 * c - 9) / 5;
        let r2 = (9 * c - 9) % 5;
        lemma_fundamental_div_mod(9 * c, 5);
        lemma_fundamental_div_mod(9 * c - 9, 5);
        assert(9 * c2 == 9 * c - 9);
        assert(5 * (q1 - q2) == 9 + r2 - r1);
        assert(spec_to_fahrenheit(c2) == q2 + 32 * TEMP_SCALE);
        assert(1 <= q1 - q2 <= 2);
    } else {
        assert(c2 == c + 1 && c <= -1);
        let n = -c;
        let q1 = (9 * n) / 5;
        let r1 = (9 * n) % 5;
        let q2 = (9 * n - 9) / 5;
        let r2 = (9 * n - 9) % 5;
        lemma_fundamental_div_mod(9 * n, 5);
        lemma_fundamental_div_mod(9 * n - 9, 5);
        assert(9 * n - 9 >= 0);
        assert(-(9 * c2) == 9 * n - 9);
        assert(5 * (q1 - q2) == 9 + r2 - r1);
        assert(spec_to_fahrenheit(c) == -q1 + 32 * TEMP_SCALE);
        assert(spec_to_fahrenheit(c2) == -q2 + 32 * TEMP_SCALE);
        assert(1 <= q1 - q2 <= 2);
    }
}

} // verus!
