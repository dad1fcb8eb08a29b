//! Decimal number text: runs of character classes, and numbers read as
//! whole units or as thousandths.
use vstd::prelude::*;

use crate::text::{digit_char, magnitude, nat_text, sign_text, three_decimals_text};

verus! {

/// The character classes the decoders scan runs of.
#[derive(Clone, Copy, PartialEq, Eq, Debug, Structural)]
pub enum CharClass {
    /// `0`-`9`
    Digit,
    /// `0`-`9` and `.`
    Numeric,
    /// a space
    Space,
    /// `-`
    Minus,
}

pub open spec fn is_digit(c: char) -> bool {
    '0' <= c && c <= '9'
}

pub open spec fn in_class(c: char, k: CharClass) -> bool {
    match k {
        CharClass::Digit => is_digit(c),
        CharClass::Numeric => is_digit(c) || c == '.',
        CharClass::Space => c == ' ',
        CharClass::Minus => c == '-',
    }
}

/// Length of the longest run of class `k` in `s` starting at `i`.
pub open spec fn run_len(s: Seq<char>, i: int, k: CharClass) -> nat
    decreases s.len() - i,
{
    if 0 <= i < s.len() && in_class(s[i], k) {
        1 + run_len(s, i + 1, k)
    } else {
        0
    }
}

pub open spec fn digit_value(c: char) -> nat {
    (c as u32 - 48) as nat
}

/// The value of a string of decimal digits, most significant first.
pub open spec fn digits_value(s: Seq<char>) -> nat
    decreases s.len(),
{
    if s.len() == 0 {
        0
    } else {
        digits_value(s.drop_last()) * 10 + digit_value(s.last())
    }
}

pub open spec fn all_digits(s: Seq<char>) -> bool {
    forall|i: int| 0 <= i < s.len() ==> is_digit(#[trigger] s[i])
}

/// 1 where `s` starts with a minus sign, else 0.
pub open spec fn sign_len(s: Seq<char>) -> int {
    if s.len() > 0 && s[0] == '-' {
        1
    } else {
        0
    }
}

/// Where the digits before the point end.
pub open spec fn int_end(s: Seq<char>) -> int {
    sign_len(s) + run_len(s, sign_len(s), CharClass::Digit)
}

/// An optional minus sign, then digits, then optionally a point and more
/// digits, with at least one digit in all.
pub open spec fn is_decimal(s: Seq<char>) -> bool {
    let a = sign_len(s);
    let k = int_end(s);
    if k == s.len() {
        k > a
    } else {
        &&& s[k] == '.'
        &&& k + 1 + run_len(s, k + 1, CharClass::Digit) == s.len()
        &&& (k > a || s.len() > k + 1)
    }
}

pub open spec fn int_digits(s: Seq<char>) -> Seq<char> {
    s.subrange(sign_len(s), int_end(s))
}

pub open spec fn frac_digits(s: Seq<char>) -> Seq<char> {
    if int_end(s) < s.len() {
        s.subrange(int_end(s) + 1, s.len() as int)
    } else {
        seq![]
    }
}

/// The fraction digits `f` as thousandths, rounded to nearest with halves up.
pub open spec fn frac_thousandths(f: Seq<char>) -> nat {
    if f.len() == 0 {
        0
    } else if f.len() == 1 {
        digits_value(f) * 100
    } else if f.len() == 2 {
        digits_value(f) * 10
    } else if f.len() == 3 || digit_value(f[3]) < 5 {
        digits_value(f.take(3))
    } else {
        digits_value(f.take(3)) + 1
    }
}

/// The value of the decimal text `s` in thousandths, the magnitude rounded
/// to nearest with halves away from zero.
pub open spec fn decimal_thousandths(s: Seq<char>) -> int {
    let m = digits_value(int_digits(s)) * 1000 + frac_thousandths(frac_digits(s));
    if sign_len(s) == 1 {
        -m
    } else {
        m as int
    }
}

/// A decimal text whose value in thousandths fits an `i64`.
pub open spec fn is_thousandths(s: Seq<char>) -> bool {
    is_decimal(s) && i64::MIN <= decimal_thousandths(s) <= i64::MAX
}

pub proof fn lemma_digits_prefix(s: Seq<char>, k: int)
    requires
        0 <= k <= s.len(),
    ensures
        digits_value(s.take(k)) <= digits_value(s),
    decreases s.len(),
{
    if k < s.len() {
        assert(s.drop_last().take(k) == s.take(k));
        lemma_digits_prefix(s.drop_last(), k);
    } else {
        assert(s.take(k) == s);
    }
}

/// The end of the run of class `k` in `s` starting at `i`.
pub fn run_end(s: &Vec<char>, i: usize, k: CharClass) -> (e: usize)
    requires
        i <= s@.len(),
    ensures
        e == i + run_len(s@, i as int, k),
        e <= s@.len(),
{
    let mut e = i;
    while e < s.len() && class_has(s[e], k)
        invariant
            i <= e <= s@.len(),
            run_len(s@, i as int, k) == (e - i) + run_len(s@, e as int, k),
        decreases s@.len() - e,
    {
        e = e + 1;
    }
    e
}

pub fn class_has(c: char, k: CharClass) -> (r: bool)
    ensures
        r == in_class(c, k),
{
    match k {
        CharClass::Digit => '0' <= c && c <= '9',
        CharClass::Numeric => ('0' <= c && c <= '9') || c == '.',
        CharClass::Space => c == ' ',
        CharClass::Minus => c == '-',
    }
}

fn digit_of(c: char) -> (d: u64)
    requires
        is_digit(c),
    ensures
        d == digit_value(c),
        d < 10,
{
    (c as u32 - 48) as u64
}

/// The value of the digits `s[from..to]`, or `None` where it reaches `bound`.
pub fn digits_below(s: &Vec<char>, from: usize, to: usize, bound: u64) -> (r: Option<u64>)
    requires
        from <= to <= s@.len(),
        all_digits(s@.subrange(from as int, to as int)),
        0 < bound <= u64::MAX / 10 - 1,
    ensures
        r matches Some(v) ==> v == digits_value(s@.subrange(from as int, to as int)) && v < 10
            * bound,
        r is None ==> digits_value(s@.subrange(from as int, to as int)) >= bound,
{
    let mut v: u64 = 0;
    let mut i = from;
    while i < to
        invariant
            from <= i <= to <= s@.len(),
            all_digits(s@.subrange(from as int, to as int)),
            v == digits_value(s@.subrange(from as int, i as int)),
            v < 10 * bound,
            0 < bound <= u64::MAX / 10 - 1,
        decreases to - i,
    {
        let ghost whole = s@.subrange(from as int, to as int);
        if v >= bound {
            proof {
                assert(whole.take(i - from) == s@.subrange(from as int, i as int));
                lemma_digits_prefix(whole, i - from);
            }
            return None;
        }
        assert(is_digit(whole[i - from]));
        let d = digit_of(s[i]);
        assert(s@.subrange(from as int, i + 1).drop_last() == s@.subrange(from as int, i as int));
        v = v * 10 + d;
        i = i + 1;
    }
    Some(v)
}

/// Reads the decimal text `s[from..to]` as thousandths.
pub fn parse_thousandths(s: &Vec<char>, from: usize, to: usize) -> (r: Option<i64>)
    requires
        from <= to <= s@.len(),
    ensures
        r is Some <==> is_thousandths(s@.subrange(from as int, to as int)),
        r matches Some(v) ==> v == decimal_thousandths(s@.subrange(from as int, to as int)),
{
    let ghost t = s@.subrange(from as int, to as int);
    let neg = from < to && s[from] == '-';
    let a = if neg { from + 1 } else { from };
    assert(sign_len(t) == a - from);
    let k = run_end_in(s, a, to, CharClass::Digit);
    assert(k - from == int_end(t)) by {
        lemma_run_len_window(s@, from as int, to as int, a as int, CharClass::Digit);
    }
    let mut frac_start = k;
    if k == to {
        if k == a {
            return None;
        }
    } else {
        if s[k] != '.' {
            return None;
        }
        let e = run_end_in(s, k + 1, to, CharClass::Digit);
        proof {
            lemma_run_len_window(s@, from as int, to as int, k + 1, CharClass::Digit);
        }
        if e != to || (k == a && to == k + 1) {
            return None;
        }
        frac_start = k + 1;
    }
    assert(is_decimal(t));
    assert(int_digits(t) == s@.subrange(a as int, k as int));
    proof { lemma_run_upto_in_class(s@, a as int, to as int, CharClass::Digit); }
    assert(all_digits(s@.subrange(a as int, k as int)));
    let ip = match digits_below(s, a, k, 10_000_000_000_000_000) {
        Some(v) => v,
        None => {
            return None;
        },
    };
    let ghost f = frac_digits(t);
    assert(f == s@.subrange(frac_start as int, to as int));
    proof {
        if frac_start < to {
            lemma_run_upto_in_class(s@, frac_start as int, to as int, CharClass::Digit);
        }
    }
    assert(all_digits(f));
    let fp = frac_part(s, frac_start, to);
    assert(fp == frac_thousandths(f));
    let m: u128 = ip as u128 * 1000 + fp as u128;
    if neg {
        if m > 9_223_372_036_854_775_808 {
            return None;
        }
        Some((0i128 - m as i128) as i64)
    } else {
        if m > 9_223_372_036_854_775_807 {
            return None;
        }
        Some(m as i64)
    }
}

/// The fraction digits `s[from..to]` as thousandths.
fn frac_part(s: &Vec<char>, from: usize, to: usize) -> (fp: u64)
    requires
        from <= to <= s@.len(),
        all_digits(s@.subrange(from as int, to as int)),
    ensures
        fp == frac_thousandths(s@.subrange(from as int, to as int)),
        fp <= 1000,
{
    let ghost f = s@.subrange(from as int, to as int);
    let n = to - from;
    if n == 0 {
        0
    } else if n == 1 {
        assert(is_digit(f[0]));
        proof { lemma_one_digit(f); }
        let r = digit_of(s[from]) * 100;
        assert(r == frac_thousandths(f));
        r
    } else if n == 2 {
        assert(is_digit(f[0]) && is_digit(f[1]));
        proof { lemma_two_digits(f); }
        let r = digit_of(s[from]) * 100 + digit_of(s[from + 1]) * 10;
        assert(r == frac_thousandths(f));
        r
    } else {
        assert(is_digit(f[0]) && is_digit(f[1]) && is_digit(f[2]));
        proof { lemma_three_digits(f); }
        let three = digit_of(s[from]) * 100 + digit_of(s[from + 1]) * 10 + digit_of(s[from + 2]);
        assert(three == digits_value(f.take(3)));
        if n == 3 {
            three
        } else {
            assert(is_digit(f[3]));
            if digit_of(s[from + 3]) < 5 {
                three
            } else {
                three + 1
            }
        }
    }
}

proof fn lemma_one_digit(f: Seq<char>)
    requires
        f.len() == 1,
    ensures
        digits_value(f) == digit_value(f[0]),
{
    assert(f.drop_last() == Seq::<char>::empty());
    assert(digits_value(Seq::<char>::empty()) == 0);
}

pub proof fn lemma_two_digits(f: Seq<char>)
    requires
        f.len() == 2,
    ensures
        digits_value(f) == digit_value(f[0]) * 10 + digit_value(f[1]),
{
    lemma_one_digit(f.drop_last());
    assert(digits_value(f) == digits_value(f.drop_last()) * 10 + digit_value(f[1]));
}

pub proof fn lemma_three_digits(f: Seq<char>)
    requires
        f.len() >= 3,
    ensures
        digits_value(f.take(3)) == digit_value(f[0]) * 100 + digit_value(f[1]) * 10 + digit_value(
            f[2],
        ),
{
    let t = f.take(3);
    lemma_two_digits(t.drop_last());
    assert(digits_value(t) == digits_value(t.drop_last()) * 10 + digit_value(f[2]));
}

/// Every character of a bounded run belongs to its class.
pub proof fn lemma_run_upto_in_class(s: Seq<char>, i: int, to: int, k: CharClass)
    requires
        0 <= i <= to <= s.len(),
    ensures
        forall|j: int| i <= j < i + run_len_upto(s, i, to, k) ==> in_class(#[trigger] s[j], k),
        i + run_len_upto(s, i, to, k) <= to,
    decreases to - i,
{
    if i < to && in_class(s[i], k) {
        lemma_run_upto_in_class(s, i + 1, to, k);
    }
}

/// Every character of a run belongs to its class.
pub proof fn lemma_run_in_class(s: Seq<char>, i: int, k: CharClass)
    requires
        0 <= i <= s.len(),
    ensures
        forall|j: int| i <= j < i + run_len(s, i, k) ==> in_class(#[trigger] s[j], k),
        i + run_len(s, i, k) <= s.len(),
    decreases s.len() - i,
{
    if i < s.len() && in_class(s[i], k) {
        lemma_run_in_class(s, i + 1, k);
    }
}

/// A run measured inside the window `s[from..to]` is the run in `s` cut at `to`.
proof fn lemma_run_len_window(s: Seq<char>, from: int, to: int, i: int, k: CharClass)
    requires
        0 <= from <= i <= to <= s.len(),
    ensures
        run_len(s.subrange(from, to), i - from, k) == run_len_upto(s, i, to, k),
    decreases to - i,
{
    if i < to && in_class(s[i], k) {
        lemma_run_len_window(s, from, to, i + 1, k);
    }
}

/// Length of the run of class `k` in `s` from `i`, not going past `to`.
pub open spec fn run_len_upto(s: Seq<char>, i: int, to: int, k: CharClass) -> nat
    decreases to - i,
{
    if 0 <= i < to && i < s.len() && in_class(s[i], k) {
        1 + run_len_upto(s, i + 1, to, k)
    } else {
        0
    }
}

/// The end of the run of class `k` in `s` from `i`, not going past `to`.
pub fn run_end_in(s: &Vec<char>, i: usize, to: usize, k: CharClass) -> (e: usize)
    requires
        i <= to <= s@.len(),
    ensures
        e == i + run_len_upto(s@, i as int, to as int, k),
        e <= to,
{
    let mut e = i;
    while e < to && class_has(s[e], k)
        invariant
            i <= e <= to <= s@.len(),
            run_len_upto(s@, i as int, to as int, k) == (e - i) + run_len_upto(
                s@,
                e as int,
                to as int,
                k,
            ),
        decreases to - e,
    {
        e = e + 1;
    }
    e
}

pub proof fn lemma_digit_char(d: nat)
    requires
        d < 10,
    ensures
        is_digit(digit_char(d)),
        digit_value(digit_char(d)) == d,
{
}

/// Decimal notation is digits only, starts with a digit, and reads back.
pub proof fn lemma_nat_text(n: nat)
    ensures
        nat_text(n).len() >= 1,
        all_digits(nat_text(n)),
        digits_value(nat_text(n)) == n,
    decreases n,
{
    if n < 10 {
        lemma_digit_char(n);
        assert(nat_text(n).drop_last() == Seq::<char>::empty());
        assert(digits_value(Seq::<char>::empty()) == 0);
        assert(digits_value(nat_text(n)) == digits_value(nat_text(n).drop_last()) * 10
            + digit_value(nat_text(n).last()));
    } else {
        lemma_nat_text(n / 10);
        lemma_digit_char(n % 10);
        let t = nat_text(n);
        assert(t.drop_last() == nat_text(n / 10));
        assert(t.last() == digit_char(n % 10));
        assert(digits_value(t) == digits_value(t.drop_last()) * 10 + digit_value(t.last()));
        assert forall|i: int| 0 <= i < t.len() implies is_digit(#[trigger] t[i]) by {
            if i < t.len() - 1 {
                assert(t[i] == nat_text(n / 10)[i]);
            }
        }
    }
}

/// A run over characters that are all in the class reaches the end.
pub proof fn lemma_run_to_end(t: Seq<char>, a: int, k: CharClass)
    requires
        0 <= a <= t.len(),
        forall|i: int| a <= i < t.len() ==> in_class(#[trigger] t[i], k),
    ensures
        a + run_len(t, a, k) == t.len(),
    decreases t.len() - a,
{
    if a < t.len() {
        lemma_run_to_end(t, a + 1, k);
    }
}

/// A run stops at the first character outside the class.
pub proof fn lemma_run_stops(t: Seq<char>, a: int, e: int, k: CharClass)
    requires
        0 <= a <= e < t.len(),
        forall|i: int| a <= i < e ==> in_class(#[trigger] t[i], k),
        !in_class(t[e], k),
    ensures
        a + run_len(t, a, k) == e,
    decreases e - a,
{
    if a < e {
        lemma_run_stops(t, a + 1, e, k);
    }
}

pub proof fn lemma_last_three_digits(m: nat)
    ensures
        (m / 100 % 10) * 100 + (m / 10 % 10) * 10 + m % 10 == m % 1000,
{
    assert((m / 100 % 10) * 100 + (m / 10 % 10) * 10 + m % 10 == m % 1000) by (nonlinear_arith);
}

/// Three-decimal notation reads back as the same number of thousandths.
pub proof fn lemma_three_decimals_round_trip(v: i64)
    ensures
        is_thousandths(three_decimals_text(v as int)),
        decimal_thousandths(three_decimals_text(v as int)) == v,
{
    let m = magnitude(v as int);
    let d = seq![
        '.',
        digit_char(m / 100 % 10),
        digit_char(m / 10 % 10),
        digit_char(m % 10),
    ];
    let w = nat_text(m / 1000);
    let s = sign_text(v as int);
    let t = three_decimals_text(v as int);
    assert(t == s + w + d);
    lemma_nat_text(m / 1000);
    lemma_digit_char(m / 100 % 10);
    lemma_digit_char(m / 10 % 10);
    lemma_digit_char(m % 10);
    let a = s.len() as int;
    let e = a + w.len();
    assert(t[a] == w[0]);
    assert(sign_len(t) == a);
    assert forall|i: int| a <= i < e implies in_class(#[trigger] t[i], CharClass::Digit) by {
        assert(t[i] == w[i - a]);
    }
    assert(t[e] == '.');
    lemma_run_stops(t, a, e, CharClass::Digit);
    assert(int_end(t) == e);
    assert forall|i: int| e + 1 <= i < t.len() implies in_class(#[trigger] t[i], CharClass::Digit) by {
        assert(t[i] == d[i - e]);
    }
    lemma_run_to_end(t, e + 1, CharClass::Digit);
    assert(int_digits(t) == w);
    let f = frac_digits(t);
    assert(f == d.drop_first());
    lemma_three_digits(f);
    assert(f.take(3) == f);
    lemma_last_three_digits(m);
    assert(frac_thousandths(f) == m % 1000);
    assert(m == (m / 1000) * 1000 + m % 1000);
}

} // verus!
