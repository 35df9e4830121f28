//! Decimal integer text, as accepted for a 32-bit signed integer field.
use vstd::prelude::*;
use vstd::string::StringSliceAdditionalSpecFns;

verus! {

pub open spec fn is_digit(b: u8) -> bool {
    48 <= b <= 57
}

pub open spec fn all_digits(s: Seq<u8>) -> bool {
    forall|i: int| 0 <= i < s.len() ==> is_digit(#[trigger] s[i])
}

/// The number that a run of decimal digits denotes, most significant first.
pub open spec fn digits_value(s: Seq<u8>) -> nat
    decreases s.len(),
{
    if s.len() == 0 {
        0
    } else {
        digits_value(s.drop_last()) * 10 + (s.last() - 48) as nat
    }
}

/// An optional sign followed by at least one decimal digit, whose value fits
/// in an `i32`; `None` for any other text.
pub open spec fn decimal_i32(s: Seq<u8>) -> Option<i32> {
    let signed = s.len() > 0 && (s[0] == 45u8 || s[0] == 43u8);
    let negative = s.len() > 0 && s[0] == 45u8;
    let digits = if signed { s.drop_first() } else { s };
    let v: int = if negative { -digits_value(digits) } else { digits_value(digits) as int };
    if digits.len() == 0 || !all_digits(digits) {
        None
    } else if i32::MIN <= v && v <= i32::MAX {
        Some(v as i32)
    } else {
        None
    }
}

proof fn lemma_prefix_value_grows(s: Seq<u8>, j: int, k: int)
    requires
        0 <= j <= k <= s.len(),
        all_digits(s),
    ensures
        digits_value(s.subrange(0, j)) <= digits_value(s.subrange(0, k)),
    decreases k - j,
{
    if j < k {
        lemma_prefix_value_grows(s, j, k - 1);
        assert(s.subrange(0, k).drop_last() =~= s.subrange(0, k - 1));
        assert(is_digit(s[k - 1]));
    }
}

/// Parses `text` as a decimal `i32`: an optional `+` or `-`, then one or more
/// ASCII digits, nothing else.
pub fn parse_i32(text: &str) -> (r: Option<i32>)
    ensures
        r == decimal_i32(text.spec_bytes()),
{
    let b = text.as_bytes();
    let n = b.len();
    let ghost s = b@;
    let negative = n > 0 && b[0] == 45u8;
    let start: usize = if n > 0 && (b[0] == 45u8 || b[0] == 43u8) { 1 } else { 0 };
    let ghost digits = if start == 1 { s.drop_first() } else { s };
    assert(digits =~= s.subrange(start as int, n as int));
    if start == n {
        return None;
    }
    let mut acc: u64 = 0;
    let mut i: usize = start;
    while i < n
        invariant
            b@ == s,
            s == text.spec_bytes(),
            n == s.len(),
            start <= i <= n,
            start == (if s.len() > 0 && (s[0] == 45u8 || s[0] == 43u8) { 1usize } else { 0usize }),
            negative == (s.len() > 0 && s[0] == 45u8),
            digits == (if start == 1 { s.drop_first() } else { s }),
            digits =~= s.subrange(start as int, n as int),
            all_digits(s.subrange(start as int, i as int)),
            acc == digits_value(s.subrange(start as int, i as int)),
            acc <= 2147483648,
        decreases n - i,
    {
        let c = b[i];
        if c < 48u8 || c > 57u8 {
            assert(digits[i - start] == c);
            assert(!all_digits(digits));
            return None;
        }
        proof {
            let p = s.subrange(start as int, i as int + 1);
            assert(p.drop_last() =~= s.subrange(start as int, i as int));
            assert(digits_value(p) == acc * 10 + (c - 48) as nat);
        }
        let next = acc * 10 + (c - 48u8) as u64;
        if next > 2147483648 {
            proof {
                let p = s.subrange(start as int, i as int + 1);
                if all_digits(digits) {
                    assert(p =~= digits.subrange(0, i - start + 1));
                    assert(digits =~= digits.subrange(0, digits.len() as int));
                    lemma_prefix_value_grows(digits, i - start + 1, digits.len() as int);
                    assert(digits_value(digits) > 2147483648);
                }
            }
            return None;
        }
        acc = next;
        i = i + 1;
    }
    assert(digits =~= s.subrange(start as int, i as int));
    if negative {
        Some((0 - (acc as i64)) as i32)
    } else if acc > 2147483647 {
        None
    } else {
        Some(acc as i32)
    }
}

} // verus!
