//! Reading numbers out of scraped text: page counts and ratings.

use vstd::prelude::*;
use vstd::string::*;

use crate::numfmt::{decimal, digit_char, digit_value, digits_value, is_digit, push_decimal};
use crate::text::push_str;

verus! {

/// The largest page count that can be read.
pub const PAGE_COUNT_MAX: u64 = 65535;

/// A rating's whole part must stay below this, so that the rating fits in
/// hundredths in a `u32`.
pub const RATING_WHOLE_LIMIT: u64 = 42949672;

pub open spec fn all_digits(s: Seq<char>) -> bool {
    forall|i: int| 0 <= i < s.len() ==> is_digit(#[trigger] s[i])
}

/// A page count as unsigned decimal text: an optional `+`, then at least one
/// digit, and a value that fits in a `u16`.
pub open spec fn page_count_spec(s: Seq<char>) -> Option<u16> {
    let body = if s.len() > 0 && s[0] == '+' {
        s.drop_first()
    } else {
        s
    };
    if body.len() > 0 && all_digits(body) && digits_value(body) <= PAGE_COUNT_MAX {
        Some(digits_value(body) as u16)
    } else {
        None
    }
}

/// The number of digits at the start of `s`.
pub open spec fn leading_digits(s: Seq<char>) -> nat
    decreases s.len(),
{
    if s.len() > 0 && is_digit(s[0]) {
        1 + leading_digits(s.drop_first())
    } else {
        0
    }
}

/// The first two digits after a decimal point, as hundredths.
pub open spec fn fraction_hundredths(frac: Seq<char>) -> nat {
    (if frac.len() > 0 {
        digit_value(frac[0]) * 10
    } else {
        0
    }) + (if frac.len() > 1 {
        digit_value(frac[1])
    } else {
        0
    })
}

/// A rating in hundredths: digits, optionally a point and more digits (at
/// least one digit in all). Digits past the second decimal are dropped.
pub open spec fn rating_spec(s: Seq<char>) -> Option<u32> {
    let k = leading_digits(s) as int;
    let whole = s.subrange(0, k);
    if digits_value(whole) >= RATING_WHOLE_LIMIT {
        None
    } else if k == s.len() {
        if k > 0 {
            Some((digits_value(whole) * 100) as u32)
        } else {
            None
        }
    } else if s[k] == '.' {
        let frac = s.subrange(k + 1, s.len() as int);
        if all_digits(frac) && k + frac.len() > 0 {
            Some((digits_value(whole) * 100 + fraction_hundredths(frac)) as u32)
        } else {
            None
        }
    } else {
        None
    }
}

/// A rating shown out of five with one decimal, rounded half up:
/// `427` hundredths gives `"4.3/5"`.
pub open spec fn rating_text(hundredths: nat) -> Seq<char> {
    let tenths = (hundredths + 5) / 10;
    decimal(tenths / 10) + seq!['.', digit_char(tenths % 10)] + "/5"@
}

fn digit_of(c: char) -> (r: Option<u64>)
    ensures
        r is Some <==> is_digit(c),
        r matches Some(d) ==> d == digit_value(c),
{
    match c {
        '0' => Some(0),
        '1' => Some(1),
        '2' => Some(2),
        '3' => Some(3),
        '4' => Some(4),
        '5' => Some(5),
        '6' => Some(6),
        '7' => Some(7),
        '8' => Some(8),
        '9' => Some(9),
        _ => None,
    }
}

pub open spec fn capped(v: nat, cap: nat) -> nat {
    if v < cap {
        v
    } else {
        cap
    }
}

/// Reads the characters `from..to` of `s` as digits; the value is capped at
/// `cap`. `None` when one of them is not a digit.
fn read_digits(s: &str, from: usize, to: usize, cap: u64) -> (r: Option<u64>)
    requires
        from <= to <= s@.len(),
        cap <= 1_000_000_000_000,
    ensures
        r is Some <==> all_digits(s@.subrange(from as int, to as int)),
        r matches Some(v) ==> v == capped(digits_value(s@.subrange(from as int, to as int)), cap as nat),
{
    let mut acc: u64 = 0;
    let mut i: usize = from;
    while i < to
        invariant
            from <= i <= to <= s@.len(),
            cap <= 1_000_000_000_000,
            all_digits(s@.subrange(from as int, i as int)),
            acc == capped(digits_value(s@.subrange(from as int, i as int)), cap as nat),
        decreases to - i,
    {
        let c = s.get_char(i);
        match digit_of(c) {
            None => {
                assert(s@.subrange(from as int, to as int)[i - from] == c);
                return None;
            },
            Some(d) => {
                let ghost prev = s@.subrange(from as int, i as int);
                let ghost next = s@.subrange(from as int, i + 1);
                assert(next.drop_last() =~= prev);
                assert(next.last() == c);
                let step = acc * 10 + d;
                acc = if step < cap { step } else { cap };
                i = i + 1;
                assert(all_digits(next)) by {
                    assert forall|j: int| 0 <= j < next.len() implies is_digit(#[trigger] next[j]) by {
                        if j < prev.len() {
                            assert(next[j] == prev[j]);
                        }
                    }
                }
            },
        }
    }
    Some(acc)
}

/// Reads a page count.
pub fn parse_page_count(s: &str) -> (r: Option<u16>)
    ensures
        r == page_count_spec(s@),
{
    let n = s.unicode_len();
    let start: usize = if n > 0 && s.get_char(0) == '+' { 1 } else { 0 };
    let ghost body = s@.subrange(start as int, n as int);
    assert(body =~= if s@.len() > 0 && s@[0] == '+' { s@.drop_first() } else { s@ });
    if start == n {
        return None;
    }
    match read_digits(s, start, n, PAGE_COUNT_MAX + 1) {
        None => None,
        Some(v) => {
            if v <= PAGE_COUNT_MAX {
                Some(v as u16)
            } else {
                None
            }
        },
    }
}

proof fn lemma_leading_digits(s: Seq<char>, i: int)
    requires
        0 <= i <= s.len(),
        forall|j: int| 0 <= j < i ==> is_digit(#[trigger] s[j]),
        i == s.len() || !is_digit(s[i]),
    ensures
        leading_digits(s) == i,
    decreases i,
{
    if i > 0 {
        let t = s.drop_first();
        assert forall|j: int| 0 <= j < i - 1 implies is_digit(#[trigger] t[j]) by {
            assert(t[j] == s[j + 1]);
        }
        lemma_leading_digits(t, i - 1);
    }
}

/// Reads a rating, in hundredths.
pub fn parse_rating(s: &str) -> (r: Option<u32>)
    ensures
        r == rating_spec(s@),
{
    let n = s.unicode_len();
    let mut k: usize = 0;
    while k < n && digit_of(s.get_char(k)).is_some()
        invariant
            k <= n == s@.len(),
            forall|j: int| 0 <= j < k ==> is_digit(#[trigger] s@[j]),
        decreases n - k,
    {
        k = k + 1;
    }
    proof {
        lemma_leading_digits(s@, k as int);
    }
    let whole = match read_digits(s, 0, k, RATING_WHOLE_LIMIT) {
        Some(v) => v,
        None => {
            return None;
        },
    };
    if whole >= RATING_WHOLE_LIMIT {
        return None;
    }
    if k == n {
        if k > 0 {
            return Some((whole * 100) as u32);
        } else {
            return None;
        }
    }
    if s.get_char(k) != '.' {
        return None;
    }
    match read_digits(s, k + 1, n, 1) {
        None => None,
        Some(_) => {
            if k + 1 == n && k == 0 {
                return None;
            }
            let ghost frac = s@.subrange(k + 1, n as int);
            let mut h: u64 = whole * 100;
            if n - k > 1 {
                let d = digit_of(s.get_char(k + 1));
                assert(frac[0] == s@[k + 1]);
                h = h + d.unwrap() * 10;
            }
            if n - k > 2 {
                let d = digit_of(s.get_char(k + 2));
                assert(frac[1] == s@[k + 2]);
                h = h + d.unwrap();
            }
            Some(h as u32)
        },
    }
}

/// Renders a rating given in hundredths.
pub fn rating_display(hundredths: u32) -> (r: String)
    ensures
        r@ == rating_text(hundredths as nat),
{
    let tenths: u64 = (hundredths as u64 + 5) / 10;
    let mut r = String::new();
    push_decimal(&mut r, tenths / 10);
    r.push('.');
    r.push(crate::numfmt::digit(tenths % 10));
    push_str(&mut r, "/5");
    assert(r@ =~= rating_text(hundredths as nat));
    r
}

} // verus!
