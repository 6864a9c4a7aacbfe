//! Temperature reading: turning the text a thermal sensor delivers into
//! a temperature value.
//!
//! The sensor file carries an optionally signed whole number of
//! milli-degrees Celsius, possibly surrounded by whitespace.  The parsed
//! value is rounded to the nearest hundredth of a degree, as the
//! reported readings are.

use vstd::prelude::*;
use crate::units::{temp_ok, div_round, div_round_i64, TEMP_LIMIT};

verus! {

/// ASCII whitespace as it appears around a sensor value.
pub open spec fn is_ws(b: u8) -> bool {
    b == 32 || b == 9 || b == 10 || b == 13
}

/// An ASCII decimal digit.
pub open spec fn is_digit(b: u8) -> bool {
    48 <= b <= 57
}

/// The first index at or after `k` holding a non-whitespace byte.
pub open spec fn trim_start(s: Seq<u8>, k: int) -> int
    decreases s.len() - k,
{
    if 0 <= k < s.len() && is_ws(s[k]) {
        trim_start(s, k + 1)
    } else {
        k
    }
}

/// The end of the last non-whitespace byte at or before `k`.
pub open spec fn trim_end(s: Seq<u8>, k: int) -> int
    decreases k,
{
    if 0 < k <= s.len() && is_ws(s[k - 1]) {
        trim_end(s, k - 1)
    } else {
        k
    }
}

/// Every byte of `s[a..b)` is a digit.
pub open spec fn all_digits(s: Seq<u8>, a: int, b: int) -> bool {
    forall|k: int| a <= k < b ==> is_digit(#[trigger] s[k])
}

/// The number the digits of `s[a..b)` spell, most significant first.
pub open spec fn digits_val(s: Seq<u8>, a: int, b: int) -> int
    decreases b - a,
{
    if b <= a {
        0
    } else {
        digits_val(s, a, b - 1) * 10 + (s[b - 1] - 48)
    }
}

/// What the sensor text parses to: the signed number its trimmed body
/// spells, or nothing when the body is not a well-formed number.
pub open spec fn parses_to(s: Seq<u8>) -> Option<int> {
    let a = trim_start(s, 0);
    let b = trim_end(s, s.len() as int);
    if a >= b {
        Option::None
    } else {
        let neg = s[a] == 45;
        let d0 = if neg { a + 1 } else { a };
        if d0 < b && all_digits(s, d0, b) {
            Option::Some(if neg { -digits_val(s, d0, b) } else { digits_val(s, d0, b) })
        } else {
            Option::None
        }
    }
}

/// Trimming from the right never moves the end forward.
proof fn lemma_trim_end_le(s: Seq<u8>, k: int)
    ensures
        trim_end(s, k) <= k,
    decreases k,
{
    if 0 < k <= s.len() && is_ws(s[k - 1]) {
        lemma_trim_end_le(s, k - 1);
    }
}

/// A digit string's value is never negative.
proof fn lemma_digits_nonneg(s: Seq<u8>, a: int, b: int)
    requires
        all_digits(s, a, b),
    ensures
        digits_val(s, a, b) >= 0,
    decreases b - a,
{
    if a < b {
        lemma_digits_nonneg(s, a, b - 1);
    }
}

/// A digit string's value grows with its length.
proof fn lemma_digits_grow(s: Seq<u8>, a: int, b1: int, b2: int)
    requires
        a <= b1 <= b2,
        all_digits(s, a, b2),
    ensures
        0 <= digits_val(s, a, b1) <= digits_val(s, a, b2),
    decreases b2 - b1,
{
    if b1 < b2 {
        lemma_digits_grow(s, a, b1, b2 - 1);
    } else {
        lemma_digits_nonneg(s, a, b1);
    }
}

/// Parses the sensor text into milli-degrees.  Absent when the text is
/// not a number or its magnitude leaves the supported range.
#[verifier::loop_isolation(false)]
pub fn parse_millidegrees(s: &[u8]) -> (r: Option<i64>)
    ensures
        match parses_to(s@) {
            Option::Some(v) => {
                &&& temp_ok(v) ==> r == Option::Some(v as i64)
                &&& !temp_ok(v) ==> r is None
            },
            Option::None => r is None,
        },
{
    let n: usize = s.len();
    let mut i: usize = 0;
    while i < n && (s[i] == 32 || s[i] == 9 || s[i] == 10 || s[i] == 13)
        invariant
            0 <= i <= n,
            n == s@.len(),
            trim_start(s@, 0) == trim_start(s@, i as int),
        decreases n - i,
    {
        i = i + 1;
    }
    // i is now the trimmed start
    assert(trim_start(s@, 0) == i);

    let mut j: usize = n;
    while j > i && (s[j - 1] == 32 || s[j - 1] == 9 || s[j - 1] == 10 || s[j - 1] == 13)
        invariant
            i <= j <= n,
            n == s@.len(),
            trim_end(s@, n as int) == trim_end(s@, j as int),
        decreases j,
    {
        j = j - 1;
    }
    if j <= i {
        // nothing before the trailing whitespace
        proof {
            lemma_trim_end_le(s@, j as int);
        }
        return None;
    }
    // j is now the trimmed end: s[j - 1] is not whitespace
    assert(trim_end(s@, n as int) == j);

    let neg: bool = s[i] == 45;
    let d0: usize = if neg { i + 1 } else { i };
    if d0 >= j {
        return None;
    }

    let ghost b = j as int;
    let mut acc: i64 = 0;
    let mut k: usize = d0;
    while k < j
        invariant
            d0 <= k <= j,
            j <= n == s@.len(),
            (d0 as int) < b == j as int,
            all_digits(s@, d0 as int, k as int),
            acc == digits_val(s@, d0 as int, k as int),
            0 <= acc <= TEMP_LIMIT,
        decreases j - k,
    {
        let c: u8 = s[k];
        if c < 48 || c > 57 {
            // not a number
            return None;
        }
        let d: i64 = (c - 48) as i64;
        acc = acc * 10 + d;
        k = k + 1;
        if acc > TEMP_LIMIT {
            // the magnitude leaves the supported range
            proof {
                if all_digits(s@, d0 as int, b) {
                    lemma_digits_grow(s@, d0 as int, k as int, b);
                }
            }
            return None;
        }
    }
    if neg {
        Some(-acc)
    } else {
        Some(acc)
    }
}

/// A temperature rounded to the nearest hundredth of a degree, still in
/// milli-degrees: the nearest multiple of ten.
pub open spec fn to_centi(t: int) -> int {
    div_round(t, 10) * 10
}

/// Rounding to a hundredth of a degree keeps the value in range.
pub proof fn lemma_to_centi_in_range(t: int)
    requires
        temp_ok(t),
    ensures
        temp_ok(to_centi(t)),
{
    crate::units::lemma_div_round_monotone(t, TEMP_LIMIT as int, 10);
    crate::units::lemma_div_round_monotone(-(TEMP_LIMIT as int), t, 10);
    vstd::arithmetic::div_mod::lemma_div_multiples_vanish_fancy(100_000_000, 5, 10);
}

/// Rounds a temperature to the nearest hundredth of a degree.
pub fn round_to_centi(t: i64) -> (r: i64)
    requires
        temp_ok(t as int),
    ensures
        r == to_centi(t as int),
        temp_ok(r as int),
{
    proof {
        lemma_to_centi_in_range(t as int);
    }
    div_round_i64(t, 10) * 10
}

/// Turns the raw sensor text into a reading: the parsed milli-degree
/// value rounded to the nearest hundredth of a degree.
pub fn sensor_reading(s: &[u8]) -> (r: Option<i64>)
    ensures
        match parses_to(s@) {
            Option::Some(v) => {
                &&& temp_ok(v) ==> r == Option::Some(to_centi(v) as i64)
                &&& !temp_ok(v) ==> r is None
            },
            Option::None => r is None,
        },
        match r {
            Option::Some(t) => temp_ok(t as int),
            Option::None => true,
        },
{
    match parse_millidegrees(s) {
        Some(v) => Some(round_to_centi(v)),
        None => None,
    }
}

} // verus!
