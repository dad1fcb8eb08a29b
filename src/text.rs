//! Character-sequence helpers shared by the decoders and the grid renderer.
use vstd::prelude::*;

verus! {

/// Relies on `String::push`: appends one character at the end.
#[verifier::external_body]
pub(crate) fn push_char(s: &mut String, c: char)
    ensures
        final(s)@ == old(s)@.push(c),
{
    s.push(c)
}

/// The characters of `s`, in order.
pub fn chars_of(s: &str) -> (r: Vec<char>)
    ensures
        r@ == s@,
{
    broadcast use vstd::string::group_string_axioms;
    let mut r: Vec<char> = Vec::new();
    for c in it: s.chars()
        invariant
            it.seq() == s@,
            r@ == it.seq().subrange(0, it.index()),
    {
        r.push(c);
    }
    assert(r@ == s@);
    r
}

/// A `String` holding exactly the characters of `v`.
pub fn string_of(v: &Vec<char>) -> (r: String)
    ensures
        r@ == v@,
{
    let mut r = String::new();
    let mut i: usize = 0;
    while i < v.len()
        invariant
            i <= v@.len(),
            r@ == v@.subrange(0, i as int),
        decreases v@.len() - i,
    {
        push_char(&mut r, v[i]);
        i = i + 1;
        assert(r@ == v@.subrange(0, i as int));
    }
    assert(v@.subrange(0, v@.len() as int) == v@);
    r
}

} // verus!

verus! {

/// The decimal digit character for `d`.
pub open spec fn digit_char(d: nat) -> char
    recommends
        d < 10,
{
    ((d + 48) as u8) as char
}

/// Decimal notation of `n`, without leading zeros.
pub open spec fn nat_text(n: nat) -> Seq<char>
    decreases n,
{
    if n < 10 {
        seq![digit_char(n)]
    } else {
        nat_text(n / 10).push(digit_char(n % 10))
    }
}

/// `n` space characters.
pub open spec fn spaces(n: nat) -> Seq<char> {
    Seq::new(n, |i: int| ' ')
}

/// `s` padded with spaces on the left to at least `w` characters.
pub open spec fn pad_left(s: Seq<char>, w: nat) -> Seq<char> {
    if s.len() < w {
        spaces((w - s.len()) as nat) + s
    } else {
        s
    }
}

/// `s` padded with spaces on the right to at least `w` characters.
pub open spec fn pad_right(s: Seq<char>, w: nat) -> Seq<char> {
    if s.len() < w {
        s + spaces((w - s.len()) as nat)
    } else {
        s
    }
}

pub open spec fn magnitude(v: int) -> nat {
    if v < 0 {
        (-v) as nat
    } else {
        v as nat
    }
}

/// A minus sign for negative values, nothing otherwise.
pub open spec fn sign_text(v: int) -> Seq<char> {
    if v < 0 {
        seq!['-']
    } else {
        seq![]
    }
}

/// A quantity given in thousandths, written in units with one decimal,
/// rounded to nearest with halves away from zero.
pub open spec fn one_decimal_text(v: int) -> Seq<char> {
    let t = (magnitude(v) + 50) / 100;
    sign_text(v) + nat_text(t / 10) + seq!['.', digit_char(t % 10)]
}

/// A quantity given in thousandths, written in units with three decimals.
pub open spec fn three_decimals_text(v: int) -> Seq<char> {
    let m = magnitude(v);
    sign_text(v) + nat_text(m / 1000) + seq![
        '.',
        digit_char(m / 100 % 10),
        digit_char(m / 10 % 10),
        digit_char(m % 10),
    ]
}

pub fn digit(d: u64) -> (c: char)
    requires
        d < 10,
    ensures
        c == digit_char(d as nat),
{
    ((d as u8) + 48u8) as char
}

/// Appends the decimal notation of `n`.
pub fn push_nat(out: &mut Vec<char>, n: u64)
    ensures
        final(out)@ == old(out)@ + nat_text(n as nat),
    decreases n,
{
    if n >= 10 {
        push_nat(out, n / 10);
    }
    out.push(digit(n % 10));
    assert(final(out)@ == old(out)@ + nat_text(n as nat));
}

pub fn push_spaces(out: &mut Vec<char>, n: usize)
    ensures
        final(out)@ == old(out)@ + spaces(n as nat),
{
    let ghost start = out@;
    let mut i: usize = 0;
    while i < n
        invariant
            i <= n,
            out@ == start + spaces(i as nat),
        decreases n - i,
    {
        out.push(' ');
        i = i + 1;
        assert(out@ == start + spaces(i as nat));
    }
}

/// Appends `s` padded on the left to width `w`.
pub fn push_padded_left(out: &mut Vec<char>, s: &mut Vec<char>, w: usize)
    ensures
        final(out)@ == old(out)@ + pad_left(old(s)@, w as nat),
{
    if s.len() < w {
        push_spaces(out, w - s.len());
    }
    out.append(s);
}

/// Appends `s` padded on the right to width `w`.
pub fn push_padded_right(out: &mut Vec<char>, s: &mut Vec<char>, w: usize)
    ensures
        final(out)@ == old(out)@ + pad_right(old(s)@, w as nat),
{
    let n = s.len();
    out.append(s);
    if n < w {
        push_spaces(out, w - n);
    }
}

fn magnitude_of(v: i64) -> (m: u64)
    ensures
        m as nat == magnitude(v as int),
{
    if v < 0 {
        (0i128 - v as i128) as u64
    } else {
        v as u64
    }
}

fn push_sign(out: &mut Vec<char>, v: i64)
    ensures
        final(out)@ == old(out)@ + sign_text(v as int),
{
    if v < 0 {
        out.push('-');
    }
}

/// The thousandths quantity `v`, in units with one decimal.
pub fn one_decimal(v: i64) -> (r: Vec<char>)
    ensures
        r@ == one_decimal_text(v as int),
{
    let mut r: Vec<char> = Vec::new();
    push_sign(&mut r, v);
    let t = (magnitude_of(v) + 50) / 100;
    push_nat(&mut r, t / 10);
    r.push('.');
    r.push(digit(t % 10));
    r
}

/// The thousandths quantity `v`, in units with three decimals.
pub fn three_decimals(v: i64) -> (r: Vec<char>)
    ensures
        r@ == three_decimals_text(v as int),
{
    let mut r: Vec<char> = Vec::new();
    push_sign(&mut r, v);
    let m = magnitude_of(v);
    push_nat(&mut r, m / 1000);
    r.push('.');
    r.push(digit(m / 100 % 10));
    r.push(digit(m / 10 % 10));
    r.push(digit(m % 10));
    r
}

} // verus!
