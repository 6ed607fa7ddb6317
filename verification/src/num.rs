//! Decimal digits: reading unsigned values out of hyphen-separated tokens and
//! rendering page numbers back into request strings.

use vstd::prelude::*;

verus! {

/// `c` is an ASCII decimal digit.
pub open spec fn is_digit(c: char) -> bool {
    48 <= c as u32 && c as u32 <= 57
}

/// The value of an ASCII digit.
pub open spec fn digit_val(c: char) -> int {
    c as u32 - 48
}

/// Every character of `s` is an ASCII digit.
pub open spec fn all_digits(s: Seq<char>) -> bool {
    forall|i: int| 0 <= i < s.len() ==> is_digit(#[trigger] s[i])
}

/// The value of a digit string, most significant first.
pub open spec fn digits_val(s: Seq<char>) -> int
    decreases s.len(),
{
    if s.len() == 0 {
        0
    } else {
        digits_val(s.drop_last()) * 10 + digit_val(s.last())
    }
}

/// Ten to the `n`.
pub open spec fn pow10(n: nat) -> int
    decreases n,
{
    if n == 0 {
        1
    } else {
        10 * pow10((n - 1) as nat)
    }
}

/// A digit string's value is bounded by ten to its length.
pub proof fn lemma_digits_val_bound(s: Seq<char>)
    requires
        all_digits(s),
    ensures
        0 <= digits_val(s) < pow10(s.len()),
    decreases s.len(),
{
    if s.len() > 0 {
        assert(all_digits(s.drop_last()));
        lemma_digits_val_bound(s.drop_last());
        assert(0 <= digit_val(s.last()) <= 9);
    }
}

/// The longest digit run a full-token parse accepts; longer runs fall back to
/// the leading digit, like any token that is not all digits.
pub open spec fn max_token_digits() -> int {
    15
}

/// The numeric reading of one hyphen-token: its full value when it is a short
/// run of digits, else the value of its leading digit, else nothing.
pub open spec fn token_value(t: Seq<char>) -> Option<int> {
    if 1 <= t.len() <= max_token_digits() && all_digits(t) {
        Some(digits_val(t))
    } else if t.len() >= 1 && is_digit(t[0]) {
        Some(digit_val(t[0]))
    } else {
        None
    }
}

/// The numeric reading of one token.
pub fn token_value_x(t: &Vec<char>) -> (r: Option<u64>)
    ensures
        match r {
            Some(v) => token_value(t@) == Some(v as int),
            None => token_value(t@) is None,
        },
{
    let n = t.len();
    if n == 0 {
        return None;
    }
    let mut full = n <= 15;
    let mut acc: u64 = 0;
    let mut i: usize = 0;
    while i < n
        invariant
            n == t@.len(),
            i <= n,
            full ==> n <= 15 && all_digits(t@.subrange(0, i as int)) && acc == digits_val(
                t@.subrange(0, i as int),
            ),
            !full ==> !(1 <= n <= 15 && all_digits(t@)),
            acc < 1000000000000000,
        decreases n - i,
    {
        let u = t[i] as u32;
        if full {
            if 48 <= u && u <= 57 {
                proof {
                    let p = t@.subrange(0, i as int);
                    let q = t@.subrange(0, i + 1);
                    assert(q.drop_last() =~= p);
                    assert(all_digits(q));
                    lemma_digits_val_bound(p);
                    assert(p.len() <= 14);
                    lemma_pow10_le(p.len(), 14);
                    assert(pow10(14) == 100000000000000) by {
                        reveal_with_fuel(pow10, 15);
                    }
                }
                acc = acc * 10 + ((u - 48) as u64);
            } else {
                assert(!is_digit(t@[i as int]));
                full = false;
                acc = 0;
            }
        }
        i = i + 1;
    }
    if full {
        proof {
            assert(t@.subrange(0, n as int) =~= t@);
        }
        return Some(acc);
    }
    let c0 = t[0] as u32;
    if 48 <= c0 && c0 <= 57 {
        proof {
            if 1 <= t@.len() <= max_token_digits() && all_digits(t@) {
                assert(t@.subrange(0, n as int) =~= t@);
            }
        }
        Some((c0 - 48) as u64)
    } else {
        None
    }
}

/// `pow10` is monotone.
pub proof fn lemma_pow10_le(a: nat, b: nat)
    requires
        a <= b,
    ensures
        pow10(a) <= pow10(b),
        1 <= pow10(a),
    decreases b,
{
    if b == 0 {
    } else if a == b {
        lemma_pow10_le((b - 1) as nat, (b - 1) as nat);
    } else {
        lemma_pow10_le(a, (b - 1) as nat);
    }
}

/// The digits of the non-negative number `n`, most significant first, with no
/// leading zero except for `0` itself.
pub open spec fn dec_digits(n: int) -> Seq<char>
    decreases n,
{
    if n < 10 {
        seq![(48 + if n >= 0 {
            n
        } else {
            0
        }) as char]
    } else {
        dec_digits(n / 10).push((48 + n % 10) as char)
    }
}

/// The decimal rendering of `n`, with a leading minus sign when negative.
pub open spec fn dec_int(n: int) -> Seq<char> {
    if n < 0 {
        seq!['-'] + dec_digits(-n)
    } else {
        dec_digits(n)
    }
}

/// The digits of `n`, most significant first.
pub fn u64_to_dec_chars(n: u64) -> (r: Vec<char>)
    ensures
        r@ == dec_digits(n as int),
{
    let mut stack: Vec<char> = Vec::new();
    let mut m: u64 = n;
    while m >= 10
        invariant
            dec_digits(n as int) =~= dec_digits(m as int) + stack@.reverse(),
        decreases m,
    {
        let d: u64 = m % 10;
        let ghost old_stack = stack@;
        let ghost old_m = m as int;
        stack.push(((48 + d) as u8) as char);
        m = m / 10;
        proof {
            assert(dec_digits(old_m) == dec_digits(old_m / 10).push((48 + old_m % 10) as char));
            assert(stack@.reverse() =~= seq![(48 + old_m % 10) as char] + old_stack.reverse());
            assert(dec_digits(old_m / 10) + stack@.reverse() =~= dec_digits(old_m)
                + old_stack.reverse());
        }
    }
    let mut r: Vec<char> = Vec::new();
    r.push(((48 + m) as u8) as char);
    let mut k: usize = stack.len();
    while k > 0
        invariant
            k <= stack@.len(),
            r@ =~= seq![(48 + m as int) as char] + stack@.reverse().subrange(
                0,
                stack@.len() - k,
            ),
        decreases k,
    {
        k = k - 1;
        r.push(stack[k]);
        proof {
            assert(stack@.reverse()[stack@.len() - k - 1] == stack@[k as int]);
            assert(r@ =~= seq![(48 + m as int) as char] + stack@.reverse().subrange(
                0,
                stack@.len() - k,
            ));
        }
    }
    proof {
        assert(stack@.reverse().subrange(0, stack@.len() as int) =~= stack@.reverse());
        assert(dec_digits(m as int) =~= seq![(48 + m as int) as char]);
        assert(r@ =~= dec_digits(n as int));
    }
    r
}

/// The decimal rendering of `n`.
pub fn i64_to_dec_chars(n: i64) -> (r: Vec<char>)
    requires
        n > i64::MIN,
    ensures
        r@ == dec_int(n as int),
{
    if n < 0 {
        let wide: i64 = n;
        let mag: u64 = (-wide) as u64;
        let digits = u64_to_dec_chars(mag);
        let mut r: Vec<char> = Vec::new();
        r.push('-');
        let mut i: usize = 0;
        while i < digits.len()
            invariant
                digits@ == dec_digits(mag as int),
                i <= digits@.len(),
                r@ =~= seq!['-'] + digits@.subrange(0, i as int),
            decreases digits@.len() - i,
        {
            r.push(digits[i]);
            assert(r@ =~= seq!['-'] + digits@.subrange(0, i + 1));
            i = i + 1;
        }
        proof {
            assert(digits@.subrange(0, digits@.len() as int) =~= digits@);
            assert(mag as int == -(n as int));
        }
        r
    } else {
        u64_to_dec_chars(n as u64)
    }
}

} // verus!
