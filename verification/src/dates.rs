//! Publication dates: parsing `"MMM d, yyyy"` / `"MMM d, yy"` release strings
//! into Unix timestamps, and the best-effort fallback chain that never fails.
//!
//! The engine's sites print English month abbreviations; a date is taken as
//! midnight UTC of the named day, on the proleptic Gregorian calendar.

use vstd::prelude::*;
use crate::num::{is_digit, digit_val, all_digits, digits_val};
use crate::text::str_to_chars;

verus! {

/// The month named by a three-letter English abbreviation, or zero.
pub open spec fn month_num(a: char, b: char, c: char) -> int {
    if a == 'J' && b == 'a' && c == 'n' {
        1
    } else if a == 'F' && b == 'e' && c == 'b' {
        2
    } else if a == 'M' && b == 'a' && c == 'r' {
        3
    } else if a == 'A' && b == 'p' && c == 'r' {
        4
    } else if a == 'M' && b == 'a' && c == 'y' {
        5
    } else if a == 'J' && b == 'u' && c == 'n' {
        6
    } else if a == 'J' && b == 'u' && c == 'l' {
        7
    } else if a == 'A' && b == 'u' && c == 'g' {
        8
    } else if a == 'S' && b == 'e' && c == 'p' {
        9
    } else if a == 'O' && b == 'c' && c == 't' {
        10
    } else if a == 'N' && b == 'o' && c == 'v' {
        11
    } else if a == 'D' && b == 'e' && c == 'c' {
        12
    } else {
        0
    }
}

/// Gregorian leap year.
pub open spec fn is_leap(y: int) -> bool {
    y % 4 == 0 && (y % 100 != 0 || y % 400 == 0)
}

/// The number of days in month `m` of year `y`.
pub open spec fn days_in_month(y: int, m: int) -> int {
    if m == 2 {
        if is_leap(y) {
            29
        } else {
            28
        }
    } else if m == 4 || m == 6 || m == 9 || m == 11 {
        30
    } else {
        31
    }
}

/// Days between 1970-01-01 and `y`-`m`-`d` on the proleptic Gregorian
/// calendar, for years from 1 onward.
pub open spec fn days_from_civil(y: int, m: int, d: int) -> int {
    let yy = if m <= 2 {
        y - 1
    } else {
        y
    };
    let era = yy / 400;
    let yoe = yy - era * 400;
    let mp = (m + 9) % 12;
    let doy = (153 * mp + 2) / 5 + d - 1;
    let doe = yoe * 365 + yoe / 4 - yoe / 100 + doy;
    era * 146097 + doe - 719468
}

/// Midnight UTC of `y`-`m`-`d`, in seconds since the Unix epoch.
pub open spec fn epoch_of(y: int, m: int, d: int) -> int {
    86400 * days_from_civil(y, m, d)
}

/// The calendar year read from the year digits: a four-digit year stands for
/// itself, a two-digit year is windowed into 1950–2049.
pub open spec fn year_of_digits(v: int, year_len: int) -> int {
    if year_len == 2 {
        if v < 50 {
            2000 + v
        } else {
            1900 + v
        }
    } else {
        v
    }
}

/// The date read from `s` under the format `"MMM d, y"` with exactly
/// `year_len` year digits: an English month abbreviation, a space, a one- or
/// two-digit day, a comma, a space, and the year.  The day must exist in the
/// named month, and a four-digit year must not be `0000`.
pub open spec fn parse_date(s: Seq<char>, year_len: int) -> Option<(int, int, int)> {
    if s.len() < 3 {
        None
    } else {
        let m = month_num(s[0], s[1], s[2]);
        if m == 0 {
            None
        } else if s.len() == 7 + year_len && s[3] == ' ' && is_digit(s[4]) && s[5] == ',' && s[6]
            == ' ' && all_digits(s.subrange(7, s.len() as int)) {
            let d = digit_val(s[4]);
            let y = year_of_digits(digits_val(s.subrange(7, s.len() as int)), year_len);
            if 1 <= y && 1 <= d <= days_in_month(y, m) {
                Some((y, m, d))
            } else {
                None
            }
        } else if s.len() == 8 + year_len && s[3] == ' ' && is_digit(s[4]) && is_digit(s[5])
            && s[6] == ',' && s[7] == ' ' && all_digits(s.subrange(8, s.len() as int)) {
            let d = digit_val(s[4]) * 10 + digit_val(s[5]);
            let y = year_of_digits(digits_val(s.subrange(8, s.len() as int)), year_len);
            if 1 <= y && 1 <= d <= days_in_month(y, m) {
                Some((y, m, d))
            } else {
                None
            }
        } else {
            None
        }
    }
}

/// The timestamp read from `s` under the format with `year_len` year digits.
pub open spec fn date_epoch(s: Seq<char>, year_len: int) -> Option<int> {
    match parse_date(s, year_len) {
        Some((y, m, d)) => Some(epoch_of(y, m, d)),
        None => None,
    }
}

/// The fallback chain of the date resolver: the four-digit-year format wins
/// when it parses to a value of at least `-1`; otherwise the two-digit-year
/// format; otherwise the supplied current timestamp.  Parsing a date is
/// best-effort metadata recovery and never an error.
pub open spec fn resolve_date_spec(s: Seq<char>, now: int) -> int {
    match date_epoch(s, 4) {
        Some(v) => if v >= -1 {
            v
        } else {
            resolve_date_fallback(s, now)
        },
        None => resolve_date_fallback(s, now),
    }
}

/// The two-digit-year leg of the fallback chain.
pub open spec fn resolve_date_fallback(s: Seq<char>, now: int) -> int {
    match date_epoch(s, 2) {
        Some(v) => v,
        None => now,
    }
}

/// The month named by the first three characters, or zero.
fn month_num_x(a: char, b: char, c: char) -> (m: u32)
    ensures
        m as int == month_num(a, b, c),
{
    if a == 'J' && b == 'a' && c == 'n' {
        1
    } else if a == 'F' && b == 'e' && c == 'b' {
        2
    } else if a == 'M' && b == 'a' && c == 'r' {
        3
    } else if a == 'A' && b == 'p' && c == 'r' {
        4
    } else if a == 'M' && b == 'a' && c == 'y' {
        5
    } else if a == 'J' && b == 'u' && c == 'n' {
        6
    } else if a == 'J' && b == 'u' && c == 'l' {
        7
    } else if a == 'A' && b == 'u' && c == 'g' {
        8
    } else if a == 'S' && b == 'e' && c == 'p' {
        9
    } else if a == 'O' && b == 'c' && c == 't' {
        10
    } else if a == 'N' && b == 'o' && c == 'v' {
        11
    } else if a == 'D' && b == 'e' && c == 'c' {
        12
    } else {
        0
    }
}

/// Reads the digit at `i`.
fn digit_at(s: &Vec<char>, i: usize) -> (r: Option<u32>)
    requires
        i < s@.len(),
    ensures
        match r {
            Some(v) => is_digit(s@[i as int]) && v as int == digit_val(s@[i as int]),
            None => !is_digit(s@[i as int]),
        },
{
    let u = s[i] as u32;
    if 48 <= u && u <= 57 {
        Some(u - 48)
    } else {
        None
    }
}

/// Reads the run of digits from `from` to the end, whose length must be
/// `year_len` (2 or 4).
fn year_digits_at(s: &Vec<char>, from: usize, year_len: usize) -> (r: Option<u32>)
    requires
        from <= s@.len(),
        s@.len() - from == year_len,
        year_len == 2 || year_len == 4,
    ensures
        match r {
            Some(v) => all_digits(s@.subrange(from as int, s@.len() as int)) && v as int
                == digits_val(s@.subrange(from as int, s@.len() as int)),
            None => !all_digits(s@.subrange(from as int, s@.len() as int)),
        },
{
    let n = s.len();
    let ghost run = s@.subrange(from as int, n as int);
    let mut acc: u32 = 0;
    let mut i: usize = from;
    while i < n
        invariant
            from <= i <= n,
            n == s@.len(),
            n - from == year_len,
            year_len <= 4,
            run == s@.subrange(from as int, n as int),
            all_digits(run.subrange(0, i - from)),
            acc as int == digits_val(run.subrange(0, i - from)),
            acc < 10000,
        decreases n - i,
    {
        proof {
            crate::num::lemma_digits_val_bound(run.subrange(0, i - from));
            crate::num::lemma_pow10_le((i - from) as nat, 3nat);
            assert(crate::num::pow10(3nat) == 1000) by {
                reveal_with_fuel(crate::num::pow10, 4);
            }
        }
        match digit_at(s, i) {
            Some(d) => {
                proof {
                    let p = run.subrange(0, i - from);
                    let q = run.subrange(0, i + 1 - from);
                    assert(q.drop_last() =~= p);
                    assert(q.last() == s@[i as int]);
                    assert(all_digits(q));
                }
                acc = acc * 10 + d;
            },
            None => {
                assert(!is_digit(run[i - from]));
                return None;
            },
        }
        i = i + 1;
    }
    proof {
        assert(run.subrange(0, (n - from) as int) =~= run);
    }
    Some(acc)
}

/// The timestamp read from `s` under the format with `year_len` year digits.
fn date_epoch_x(s: &Vec<char>, year_len: usize) -> (r: Option<i64>)
    requires
        year_len == 2 || year_len == 4,
    ensures
        match r {
            Some(v) => date_epoch(s@, year_len as int) == Some(v as int),
            None => date_epoch(s@, year_len as int) is None,
        },
{
    let n = s.len();
    if n < 3 {
        return None;
    }
    let m = month_num_x(s[0], s[1], s[2]);
    if m == 0 {
        return None;
    }
    let day: u32;
    let year_from: usize;
    if n == 7 + year_len && s[3] == ' ' && s[5] == ',' && s[6] == ' ' {
        match digit_at(s, 4) {
            Some(d) => {
                day = d;
                year_from = 7;
            },
            None => {
                return None;
            },
        }
    } else if n == 8 + year_len && s[3] == ' ' && s[6] == ',' && s[7] == ' ' {
        let d1 = match digit_at(s, 4) {
            Some(d) => d,
            None => {
                return None;
            },
        };
        let d2 = match digit_at(s, 5) {
            Some(d) => d,
            None => {
                return None;
            },
        };
        day = d1 * 10 + d2;
        year_from = 8;
    } else {
        return None;
    }
    let yv = match year_digits_at(s, year_from, year_len) {
        Some(v) => v,
        None => {
            return None;
        },
    };
    proof {
        crate::num::lemma_digits_val_bound(s@.subrange(year_from as int, s@.len() as int));
        crate::num::lemma_pow10_le(year_len as nat, 4nat);
        assert(crate::num::pow10(4nat) == 10000) by {
            reveal_with_fuel(crate::num::pow10, 5);
        }
        assert(crate::num::pow10(2nat) == 100) by {
            reveal_with_fuel(crate::num::pow10, 3);
        }
    }
    let y: u32 = if year_len == 2 {
        if yv < 50 {
            2000 + yv
        } else {
            1900 + yv
        }
    } else {
        yv
    };
    assert(y as int == year_of_digits(yv as int, year_len as int));
    if y < 1 {
        return None;
    }
    let dim = days_in_month_x(y, m);
    if day < 1 || day > dim {
        return None;
    }
    Some(epoch_x(y, m, day))
}

/// The number of days in month `m` of year `y`.
fn days_in_month_x(y: u32, m: u32) -> (r: u32)
    ensures
        r as int == days_in_month(y as int, m as int),
{
    if m == 2 {
        if y % 4 == 0 && (y % 100 != 0 || y % 400 == 0) {
            29
        } else {
            28
        }
    } else if m == 4 || m == 6 || m == 9 || m == 11 {
        30
    } else {
        31
    }
}

/// Midnight UTC of `y`-`m`-`d` in seconds since the Unix epoch.
fn epoch_x(y: u32, m: u32, d: u32) -> (r: i64)
    requires
        1 <= y <= 9999,
        1 <= m <= 12,
        1 <= d <= 31,
    ensures
        r as int == epoch_of(y as int, m as int, d as int),
{
    let yy: i64 = if m <= 2 {
        y as i64 - 1
    } else {
        y as i64
    };
    let era: i64 = yy / 400;
    let yoe: i64 = yy - era * 400;
    let mp: i64 = ((m as i64) + 9) % 12;
    let doy: i64 = (153 * mp + 2) / 5 + (d as i64) - 1;
    let doe: i64 = yoe * 365 + yoe / 4 - yoe / 100 + doy;
    let days: i64 = era * 146097 + doe - 719468;
    86400 * days
}

/// Resolves a release-date string against the fallback chain, `now` standing
/// for the moment of resolution.
pub fn resolve_date(s: &str, now: i64) -> (r: i64)
    ensures
        r as int == resolve_date_spec(s@, now as int),
{
    let chars = str_to_chars(s);
    match date_epoch_x(&chars, 4) {
        Some(v) => {
            if v >= -1 {
                return v;
            }
        },
        None => {},
    }
    match date_epoch_x(&chars, 2) {
        Some(v) => v,
        None => now,
    }
}

} // verus!
