//! Free-text diagnostics carried by `mc_print` reports.
use vstd::prelude::*;

use crate::error::DecodeError;
use crate::number::{
    decimal_thousandths, is_thousandths, lemma_run_in_class, parse_thousandths, run_end, run_len,
    CharClass,
};
use crate::text::{chars_of, string_of};

verus! {

/// A classified diagnostic line. Measurements are in thousandths of a
/// millimetre.
#[derive(Clone, PartialEq, Debug)]
pub enum McPrintValue {
    AmsPeriod,
    AmsTask,
    Bmc,
    /// Bed levelling measurement
    BmcMeas { x: i64, y: i64, z_c: i64, z_d: i64 },
    Unknown(String),
}

/// What a [`McPrintValue`] says, with the unclassified text as characters.
pub enum McPrintView {
    AmsPeriod,
    AmsTask,
    Bmc,
    BmcMeas { x: i64, y: i64, z_c: i64, z_d: i64 },
    Unknown(Seq<char>),
}

impl View for McPrintValue {
    type V = McPrintView;

    open spec fn view(&self) -> McPrintView {
        match self {
            McPrintValue::AmsPeriod => McPrintView::AmsPeriod,
            McPrintValue::AmsTask => McPrintView::AmsTask,
            McPrintValue::Bmc => McPrintView::Bmc,
            McPrintValue::BmcMeas { x, y, z_c, z_d } => McPrintView::BmcMeas {
                x: *x,
                y: *y,
                z_c: *z_c,
                z_d: *z_d,
            },
            McPrintValue::Unknown(s) => McPrintView::Unknown(s@),
        }
    }
}

/// `lit` occurs in `s` at `i`.
pub open spec fn lit_at(s: Seq<char>, i: int, lit: Seq<char>) -> bool {
    0 <= i && i + lit.len() <= s.len() && s.subrange(i, i + lit.len()) == lit
}

/// `s` without one leading and one trailing double quote, where present.
pub open spec fn trim_quotes(s: Seq<char>) -> Seq<char> {
    let a = if s.len() > 0 && s[0] == '"' {
        s.drop_first()
    } else {
        s
    };
    if a.len() > 0 && a.last() == '"' {
        a.drop_last()
    } else {
        a
    }
}

/// Spans of the four numbers of a measurement `X<x> Y<y>,z_c= <z_c> ,z_d=<z_d>`
/// starting at `i`, as `(x_start, x_end, y_start, y_end, ...)`. Each number
/// is a longest run of digits and points, the last two after any minus signs;
/// at least one space comes before the offset and any number after it.
pub open spec fn measurement_at(s: Seq<char>, i: int) -> Option<(int, int, int, int, int, int, int, int)> {
    let a = i + 1;
    let b = a + run_len(s, a, CharClass::Numeric);
    let c = b + 2;
    let d = c + run_len(s, c, CharClass::Numeric);
    let e = d + 5;
    let f = e + run_len(s, e, CharClass::Space);
    let g = f + run_len(s, f, CharClass::Minus);
    let h = g + run_len(s, g, CharClass::Numeric);
    let k = h + run_len(s, h, CharClass::Space);
    let l = k + 5;
    let m = l + run_len(s, l, CharClass::Minus);
    let n = m + run_len(s, m, CharClass::Numeric);
    if lit_at(s, i, seq!['X']) && b > a && lit_at(s, b, seq![' ', 'Y']) && d > c && lit_at(
        s,
        d,
        seq![',', 'z', '_', 'c', '='],
    ) && f > e && h > g && lit_at(s, k, seq![',', 'z', '_', 'd', '=']) && n > m {
        Some((a, b, c, d, f, h, l, n))
    } else {
        None
    }
}

/// The leftmost measurement in `s` at or after `i`.
pub open spec fn find_measurement(s: Seq<char>, i: int) -> Option<(int, int, int, int, int, int, int, int)>
    decreases s.len() - i,
{
    if 0 <= i < s.len() {
        match measurement_at(s, i) {
            Some(p) => Some(p),
            None => find_measurement(s, i + 1),
        }
    } else {
        None
    }
}

/// A `[BMC]` line after its prefix: a measurement where one is found and all
/// four numbers read, `Bmc` where none is found.
pub open spec fn bmc_view(t: Seq<char>) -> Result<McPrintView, DecodeError> {
    match find_measurement(t, 0) {
        None => Ok(McPrintView::Bmc),
        Some((a, b, c, d, f, h, l, n)) => {
            let xs = t.subrange(a, b);
            let ys = t.subrange(c, d);
            let cs = t.subrange(f, h);
            let ds = t.subrange(l, n);
            if is_thousandths(xs) && is_thousandths(ys) && is_thousandths(cs) && is_thousandths(
                ds,
            ) {
                Ok(
                    McPrintView::BmcMeas {
                        x: decimal_thousandths(xs) as i64,
                        y: decimal_thousandths(ys) as i64,
                        z_c: decimal_thousandths(cs) as i64,
                        z_d: decimal_thousandths(ds) as i64,
                    },
                )
            } else {
                Err(DecodeError::InvalidNumber)
            }
        },
    }
}

/// The classification of a diagnostic line, by prefix in this order.
pub open spec fn mc_print_view(s: Seq<char>) -> Result<McPrintView, DecodeError> {
    let t = trim_quotes(s);
    if lit_at(t, 0, "[AMS][Period]"@) {
        Ok(McPrintView::AmsPeriod)
    } else if lit_at(t, 0, "[AMS][TASK]"@) {
        Ok(McPrintView::AmsTask)
    } else if lit_at(t, 0, "[BMC]"@) {
        if lit_at(t, 0, "[BMC] "@) {
            bmc_view(t.skip(6))
        } else {
            bmc_view(t)
        }
    } else {
        Ok(McPrintView::Unknown(t))
    }
}

fn lit_here(s: &Vec<char>, i: usize, lit: &Vec<char>) -> (r: bool)
    ensures
        r == lit_at(s@, i as int, lit@),
{
    if i > s.len() || lit.len() > s.len() - i {
        return false;
    }
    let len = s.len();
    let mut j: usize = 0;
    while j < lit.len()
        invariant
            i + lit@.len() <= s@.len() == len,
            j <= lit@.len(),
            forall|q: int| 0 <= q < j ==> s@[i + q] == lit@[q],
        decreases lit@.len() - j,
    {
        if s[i + j] != lit[j] {
            assert(s@.subrange(i as int, i + lit@.len())[j as int] != lit@[j as int]);
            return false;
        }
        j = j + 1;
    }
    assert(s@.subrange(i as int, i + lit@.len()) == lit@);
    true
}

fn tail_from(v: &Vec<char>, k: usize) -> (r: Vec<char>)
    requires
        k <= v@.len(),
    ensures
        r@ == v@.skip(k as int),
{
    let mut r: Vec<char> = Vec::new();
    let mut i = k;
    while i < v.len()
        invariant
            k <= i <= v@.len(),
            r@ == v@.subrange(k as int, i as int),
        decreases v@.len() - i,
    {
        r.push(v[i]);
        i = i + 1;
    }
    r
}

/// `s` without one leading and one trailing double quote, where present.
fn trimmed(s: &Vec<char>) -> (r: Vec<char>)
    ensures
        r@ == trim_quotes(s@),
{
    let a = if s.len() > 0 && s[0] == '"' {
        1
    } else {
        0
    };
    let mut r = tail_from(s, a);
    if r.len() > 0 && r[r.len() - 1] == '"' {
        r.pop();
    }
    r
}

/// The spans of a measurement starting at `i`.
fn measurement_here(s: &Vec<char>, i: usize) -> (r: Option<(usize, usize, usize, usize, usize, usize, usize, usize)>)
    requires
        i < s@.len(),
    ensures
        match r {
            Some((a, b, c, d, f, h, l, n)) => measurement_at(s@, i as int) == Some(
                (a as int, b as int, c as int, d as int, f as int, h as int, l as int, n as int),
            ),
            None => measurement_at(s@, i as int) is None,
        },
{
    let len = s.len();
    if s[i] != 'X' {
        assert(s@.subrange(i as int, i + 1)[0] != seq!['X'][0]);
        return None;
    }
    assert(s@.subrange(i as int, i + 1) == seq!['X']);
    let a = i + 1;
    let b = run_end(s, a, CharClass::Numeric);
    if b == a || !lit_here(s, b, &vec![' ', 'Y']) {
        return None;
    }
    let c = b + 2;
    let d = run_end(s, c, CharClass::Numeric);
    if d == c || !lit_here(s, d, &vec![',', 'z', '_', 'c', '=']) {
        return None;
    }
    let e = d + 5;
    let f = run_end(s, e, CharClass::Space);
    if f == e {
        return None;
    }
    let g = run_end(s, f, CharClass::Minus);
    let h = run_end(s, g, CharClass::Numeric);
    if h == g {
        return None;
    }
    let k = run_end(s, h, CharClass::Space);
    if !lit_here(s, k, &vec![',', 'z', '_', 'd', '=']) {
        return None;
    }
    let l = k + 5;
    let m = run_end(s, l, CharClass::Minus);
    let n = run_end(s, m, CharClass::Numeric);
    if n == m {
        return None;
    }
    Some((a, b, c, d, f, h, l, n))
}

/// The leftmost measurement in `s`.
fn find_measurement_in(s: &Vec<char>) -> (r: Option<(usize, usize, usize, usize, usize, usize, usize, usize)>)
    ensures
        match r {
            Some((a, b, c, d, f, h, l, n)) => find_measurement(s@, 0) == Some(
                (a as int, b as int, c as int, d as int, f as int, h as int, l as int, n as int),
            ),
            None => find_measurement(s@, 0) is None,
        },
{
    let mut i: usize = 0;
    while i < s.len()
        invariant
            i <= s@.len(),
            find_measurement(s@, 0) == find_measurement(s@, i as int),
        decreases s@.len() - i,
    {
        let r = measurement_here(s, i);
        if r.is_some() {
            return r;
        }
        i = i + 1;
    }
    None
}

/// Reads a `[BMC]` line after its prefix.
fn bmc_of(t: &Vec<char>) -> (r: Result<McPrintValue, DecodeError>)
    ensures
        match r {
            Ok(v) => bmc_view(t@) == Ok::<McPrintView, DecodeError>(v@),
            Err(e) => bmc_view(t@) == Err::<McPrintView, DecodeError>(e),
        },
{
    match find_measurement_in(t) {
        None => Ok(McPrintValue::Bmc),
        Some((a, b, c, d, f, h, l, n)) => {
            proof {
                lemma_measurement_bounds(t@, 0);
            }
            let x = parse_thousandths(t, a, b);
            let y = parse_thousandths(t, c, d);
            let z_c = parse_thousandths(t, f, h);
            let z_d = parse_thousandths(t, l, n);
            match (x, y, z_c, z_d) {
                (Some(x), Some(y), Some(z_c), Some(z_d)) => Ok(McPrintValue::BmcMeas { x, y, z_c, z_d }),
                _ => Err(DecodeError::InvalidNumber),
            }
        },
    }
}

/// The spans of any measurement found are ordered and lie within `s`.
proof fn lemma_measurement_bounds(s: Seq<char>, i: int)
    requires
        0 <= i,
    ensures
        find_measurement(s, i) matches Some((a, b, c, d, f, h, l, n)) ==> a <= b <= c <= d <= f
            <= h <= l <= n <= s.len(),
    decreases s.len() - i,
{
    if 0 <= i < s.len() {
        match measurement_at(s, i) {
            Some(_) => {
                let a = i + 1;
                let b = a + run_len(s, a, CharClass::Numeric);
                let c = b + 2;
                let d = c + run_len(s, c, CharClass::Numeric);
                let e = d + 5;
                let f = e + run_len(s, e, CharClass::Space);
                let g = f + run_len(s, f, CharClass::Minus);
                let h = g + run_len(s, g, CharClass::Numeric);
                let k = h + run_len(s, h, CharClass::Space);
                let l = k + 5;
                let m = l + run_len(s, l, CharClass::Minus);
                lemma_run_in_class(s, m, CharClass::Numeric);
            },
            None => {
                lemma_measurement_bounds(s, i + 1);
            },
        }
    }
}

impl McPrintValue {
    /// Classifies a diagnostic line: after one surrounding double quote is
    /// taken off each end, `[AMS][Period]` and `[AMS][TASK]` lines by their
    /// prefix; `[BMC]` lines as a measurement where the text after `[BMC] `
    /// holds one, failing where one of its numbers does not read, and as
    /// `Bmc` otherwise; anything else as `Unknown` with the trimmed text.
    pub fn parse(s: &str) -> (r: Result<McPrintValue, DecodeError>)
        ensures
            match r {
                Ok(v) => mc_print_view(s@) == Ok::<McPrintView, DecodeError>(v@),
                Err(e) => mc_print_view(s@) == Err::<McPrintView, DecodeError>(e),
            },
    {
        let all = chars_of(s);
        let t = trimmed(&all);
        if lit_here(&t, 0, &chars_of("[AMS][Period]")) {
            Ok(McPrintValue::AmsPeriod)
        } else if lit_here(&t, 0, &chars_of("[AMS][TASK]")) {
            Ok(McPrintValue::AmsTask)
        } else if lit_here(&t, 0, &chars_of("[BMC]")) {
            if lit_here(&t, 0, &chars_of("[BMC] ")) {
                proof {
                    reveal_strlit("[BMC] ");
                }
                bmc_of(&tail_from(&t, 6))
            } else {
                bmc_of(&t)
            }
        } else {
            Ok(McPrintValue::Unknown(string_of(&t)))
        }
    }

    /// Whether this is a bed levelling measurement.
    pub fn is_bmc_meas(&self) -> (r: bool)
        ensures
            r == (self is BmcMeas),
    {
        match self {
            McPrintValue::BmcMeas { .. } => true,
            _ => false,
        }
    }
}

impl std::str::FromStr for McPrintValue {
    type Err = DecodeError;

    fn from_str(s: &str) -> Result<McPrintValue, DecodeError> {
        McPrintValue::parse(s)
    }
}

} // verus!
