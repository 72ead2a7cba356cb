//! Decimal rendering of integers, with and without thousands grouping.

use vstd::prelude::*;

verus! {

/// The ASCII digit for `d` (taken modulo ten).
pub open spec fn digit_char(d: nat) -> char {
    let d = d % 10;
    if d == 0 { '0' }
    else if d == 1 { '1' }
    else if d == 2 { '2' }
    else if d == 3 { '3' }
    else if d == 4 { '4' }
    else if d == 5 { '5' }
    else if d == 6 { '6' }
    else if d == 7 { '7' }
    else if d == 8 { '8' }
    else { '9' }
}

/// The value of a digit character, for `'0'..='9'`.
pub open spec fn digit_value(c: char) -> nat {
    if c == '1' { 1 }
    else if c == '2' { 2 }
    else if c == '3' { 3 }
    else if c == '4' { 4 }
    else if c == '5' { 5 }
    else if c == '6' { 6 }
    else if c == '7' { 7 }
    else if c == '8' { 8 }
    else if c == '9' { 9 }
    else { 0 }
}

pub open spec fn is_digit(c: char) -> bool {
    '0' <= c && c <= '9'
}

/// The shortest decimal notation of `n`: no leading zeros, `"0"` for zero.
pub open spec fn decimal(n: nat) -> Seq<char>
    decreases n,
{
    if n < 10 {
        seq![digit_char(n)]
    } else {
        decimal(n / 10).push(digit_char(n % 10))
    }
}

/// The three digits of `m % 1000`, zero-padded on the left.
pub open spec fn three_digits(m: nat) -> Seq<char> {
    seq![digit_char(m / 100), digit_char(m / 10), digit_char(m)]
}

/// The character that separates groups of thousands.
pub open spec fn separator() -> char {
    ','
}

/// `n` in decimal, with a comma between groups of three digits counted
/// from the right: `1234567` is `"1,234,567"`.
pub open spec fn grouped(n: nat) -> Seq<char>
    decreases n,
{
    if n < 1000 {
        decimal(n)
    } else {
        grouped(n / 1000) + seq![separator()] + three_digits(n % 1000)
    }
}

/// The integer that a string of digits denotes.
pub open spec fn digits_value(s: Seq<char>) -> nat
    decreases s.len(),
{
    if s.len() == 0 {
        0
    } else {
        digits_value(s.drop_last()) * 10 + digit_value(s.last())
    }
}

/// `s` with every separator taken out.
pub open spec fn without_separators(s: Seq<char>) -> Seq<char>
    decreases s.len(),
{
    if s.len() == 0 {
        s
    } else if s.last() == separator() {
        without_separators(s.drop_last())
    } else {
        without_separators(s.drop_last()).push(s.last())
    }
}

/// The digit groups of `grouped(n)`, most significant first.
pub open spec fn digit_groups(n: nat) -> Seq<Seq<char>>
    decreases n,
{
    if n < 1000 {
        seq![decimal(n)]
    } else {
        digit_groups(n / 1000).push(three_digits(n % 1000))
    }
}

/// The groups laid end to end with one separator between neighbours.
pub open spec fn join_groups(gs: Seq<Seq<char>>) -> Seq<char>
    decreases gs.len(),
{
    if gs.len() == 0 {
        Seq::empty()
    } else if gs.len() == 1 {
        gs[0]
    } else {
        join_groups(gs.drop_last()) + seq![separator()] + gs.last()
    }
}

proof fn lemma_digit_round_trip(k: nat)
    ensures
        digit_value(digit_char(k)) == k % 10,
        is_digit(digit_char(k)),
        digit_char(k) != separator(),
{
}

pub proof fn lemma_decimal_is_digits(n: nat)
    ensures
        decimal(n).len() >= 1,
        forall|i: int| 0 <= i < decimal(n).len() ==> is_digit(#[trigger] decimal(n)[i]),
    decreases n,
{
    lemma_digit_round_trip(n);
    if n >= 10 {
        lemma_decimal_is_digits(n / 10);
        lemma_digit_round_trip(n % 10);
    }
}

proof fn lemma_decimal_value(n: nat)
    ensures
        digits_value(decimal(n)) == n,
    decreases n,
{
    lemma_digit_round_trip(n);
    if n < 10 {
        assert(decimal(n).drop_last() =~= Seq::<char>::empty());
        assert(digits_value(Seq::<char>::empty()) == 0);
        assert(n % 10 == n);
    } else {
        lemma_decimal_value(n / 10);
        lemma_digit_round_trip(n % 10);
        vstd::arithmetic::div_mod::lemma_fundamental_div_mod(n as int, 10);
        assert(decimal(n).drop_last() =~= decimal(n / 10));
        assert(decimal(n).last() == digit_char(n % 10));
        assert((n % 10) % 10 == n % 10);
        assert(digits_value(decimal(n)) == digits_value(decimal(n / 10)) * 10 + (n % 10));
    }
}

proof fn lemma_decimal_splits_at_thousands(n: nat)
    requires
        n >= 1000,
    ensures
        decimal(n) == decimal(n / 1000) + three_digits(n % 1000),
{
    let m = n % 1000;
    assert(n / 10 / 10 == n / 100);
    assert(n / 100 / 10 == n / 1000);
    assert((m / 100) % 10 == (n / 100) % 10);
    assert((m / 10) % 10 == (n / 10) % 10);
    assert(m % 10 == n % 10);
    assert(digit_char(m / 100) == digit_char(n / 100));
    assert(digit_char(m / 10) == digit_char(n / 10));
    assert(digit_char(m) == digit_char(n));
    assert(decimal(n) == decimal(n / 10).push(digit_char(n % 10)));
    assert(decimal(n / 10) == decimal(n / 100).push(digit_char((n / 10) % 10)));
    assert(decimal(n / 100) == decimal(n / 1000).push(digit_char((n / 100) % 10)));
    assert(digit_char((n / 10) % 10) == digit_char(n / 10));
    assert(digit_char((n / 100) % 10) == digit_char(n / 100));
    assert(digit_char(n % 10) == digit_char(n));
    assert(decimal(n) =~= decimal(n / 1000) + three_digits(m));
}

proof fn lemma_without_separators_concat(a: Seq<char>, b: Seq<char>)
    ensures
        without_separators(a + b) == without_separators(a) + without_separators(b),
    decreases b.len(),
{
    if b.len() == 0 {
        assert(a + b =~= a);
        assert(without_separators(a) + without_separators(b) =~= without_separators(a));
    } else {
        lemma_without_separators_concat(a, b.drop_last());
        assert((a + b).drop_last() =~= a + b.drop_last());
        if b.last() != separator() {
            assert(without_separators(a) + without_separators(b) =~= (without_separators(a)
                + without_separators(b.drop_last())).push(b.last()));
        }
    }
}

proof fn lemma_without_separators_digits(s: Seq<char>)
    requires
        forall|i: int| 0 <= i < s.len() ==> is_digit(#[trigger] s[i]),
    ensures
        without_separators(s) == s,
    decreases s.len(),
{
    if s.len() > 0 {
        lemma_without_separators_digits(s.drop_last());
        assert(without_separators(s.drop_last()).push(s.last()) =~= s);
    }
}

/// Grouping in thousands loses nothing: `grouped(n)` is the decimal notation
/// of `n` cut, from the right, into groups of at most three digits (every
/// group but the first has exactly three) joined by separators, and taking
/// the separators out and reading the digits gives `n` back.
pub proof fn lemma_grouping_round_trip(n: nat)
    ensures
        grouped(n) == join_groups(digit_groups(n)),
        digit_groups(n).len() >= 1,
        forall|i: int|
            0 <= i < digit_groups(n).len() ==> 1 <= (#[trigger] digit_groups(n)[i]).len() <= 3,
        forall|i: int| 1 <= i < digit_groups(n).len() ==> (#[trigger] digit_groups(n)[i]).len() == 3,
        forall|i: int, j: int|
            0 <= i < digit_groups(n).len() && 0 <= j < digit_groups(n)[i].len() ==> is_digit(
                #[trigger] digit_groups(n)[i][j],
            ),
        without_separators(grouped(n)) == decimal(n),
        digits_value(without_separators(grouped(n))) == n,
    decreases n,
{
    lemma_decimal_is_digits(n);
    lemma_decimal_value(n);
    if n < 1000 {
        if n >= 10 {
            assert(decimal(n).len() == decimal(n / 10).len() + 1);
            if n >= 100 {
                assert(decimal(n / 10).len() == decimal(n / 100).len() + 1);
                assert(decimal(n / 100).len() == 1);
            } else {
                assert(decimal(n / 10).len() == 1);
            }
        }
        lemma_without_separators_digits(decimal(n));
    } else {
        let q = n / 1000;
        let m = n % 1000;
        lemma_grouping_round_trip(q);
        lemma_digit_round_trip(m / 100);
        lemma_digit_round_trip(m / 10);
        lemma_digit_round_trip(m);
        let gs = digit_groups(n);
        assert(gs.drop_last() =~= digit_groups(q));
        assert(gs.last() == three_digits(m));
        assert forall|i: int, j: int|
            0 <= i < gs.len() && 0 <= j < gs[i].len() implies is_digit(#[trigger] gs[i][j]) by {
            if i < gs.len() - 1 {
                assert(gs[i] == digit_groups(q)[i]);
            }
        }
        assert forall|i: int| 0 <= i < gs.len() implies 1 <= (#[trigger] gs[i]).len() <= 3 by {
            if i < gs.len() - 1 {
                assert(gs[i] == digit_groups(q)[i]);
            }
        }
        assert forall|i: int| 1 <= i < gs.len() implies (#[trigger] gs[i]).len() == 3 by {
            if i < gs.len() - 1 {
                assert(gs[i] == digit_groups(q)[i]);
            }
        }
        lemma_without_separators_concat(grouped(q) + seq![separator()], three_digits(m));
        lemma_without_separators_concat(grouped(q), seq![separator()]);
        assert(without_separators(seq![separator()]) =~= Seq::<char>::empty()) by {
            let sep = seq![separator()];
            assert(sep.len() == 1 && sep.last() == separator());
            assert(sep.drop_last() =~= Seq::<char>::empty());
            assert(without_separators(sep) == without_separators(sep.drop_last()));
        }
        lemma_without_separators_digits(three_digits(m));
        lemma_decimal_splits_at_thousands(n);
        assert(without_separators(grouped(n)) =~= decimal(n));
    }
}

pub fn digit(d: u64) -> (c: char)
    ensures
        c == digit_char(d as nat),
{
    let d = d % 10;
    if d == 0 { '0' }
    else if d == 1 { '1' }
    else if d == 2 { '2' }
    else if d == 3 { '3' }
    else if d == 4 { '4' }
    else if d == 5 { '5' }
    else if d == 6 { '6' }
    else if d == 7 { '7' }
    else if d == 8 { '8' }
    else { '9' }
}

/// Appends the decimal notation of `n`.
pub fn push_decimal(out: &mut String, n: u64)
    ensures
        final(out)@ == old(out)@ + decimal(n as nat),
    decreases n,
{
    if n < 10 {
        out.push(digit(n));
    } else {
        push_decimal(out, n / 10);
        out.push(digit(n % 10));
        assert(final(out)@ =~= old(out)@ + decimal(n as nat));
    }
}

/// Appends `n` grouped in thousands.
pub fn push_grouped(out: &mut String, n: u64)
    ensures
        final(out)@ == old(out)@ + grouped(n as nat),
    decreases n,
{
    if n < 1000 {
        push_decimal(out, n);
    } else {
        push_grouped(out, n / 1000);
        out.push(',');
        let m = n % 1000;
        out.push(digit(m / 100));
        out.push(digit(m / 10));
        out.push(digit(m));
        assert(final(out)@ =~= old(out)@ + grouped(n as nat));
    }
}

/// Renders an amount grouped in thousands: `1234567` gives `"1,234,567"`,
/// `0` gives `"0"`.
pub fn format_currency(value: u64) -> (r: String)
    ensures
        r@ == grouped(value as nat),
{
    let mut r = String::new();
    push_grouped(&mut r, value);
    assert(r@ =~= grouped(value as nat));
    r
}

} // verus!
