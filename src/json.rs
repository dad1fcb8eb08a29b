//! JSON values as the decoders see them. Numbers keep their decimal text,
//! so that each field reads it as the kind of number it expects.
use vstd::prelude::*;

use crate::number::{
    all_digits, digits_value, is_thousandths, decimal_thousandths, lemma_digits_prefix,
    lemma_run_in_class, parse_thousandths, run_end, run_len, sign_len, CharClass,
};
use crate::text::chars_of;

verus! {

broadcast use vstd::std_specs::vec::group_vec_axioms;

/// A JSON value.
#[derive(PartialEq, Debug)]
pub enum Json {
    Null,
    Bool(bool),
    /// A number, as decimal text
    Number(String),
    Str(String),
    Array(Vec<Json>),
    /// Members in order; a key is looked up at its first occurrence
    Object(Vec<(String, Json)>),
}

/// What a [`Json`] value holds.
pub enum JsonView {
    Null,
    Bool(bool),
    Number(Seq<char>),
    Str(Seq<char>),
    Array(Seq<JsonView>),
    Object(Seq<(Seq<char>, JsonView)>),
}

impl View for Json {
    type V = JsonView;

    open spec fn view(&self) -> JsonView {
        json_view(*self)
    }
}

pub open spec fn json_view(j: Json) -> JsonView
    decreases j, 0int,
{
    match j {
        Json::Null => JsonView::Null,
        Json::Bool(b) => JsonView::Bool(b),
        Json::Number(t) => JsonView::Number(t@),
        Json::Str(s) => JsonView::Str(s@),
        Json::Array(a) => JsonView::Array(items_view(a, a@.len() as int)),
        Json::Object(o) => JsonView::Object(members_view(o, o@.len() as int)),
    }
}

/// The views of the values of `v`.
pub open spec fn jsons_view(v: Seq<Json>) -> Seq<JsonView> {
    Seq::new(v.len(), |i: int| v[i]@)
}

/// The views of the first `n` items of `a`.
pub open spec fn items_view(a: Vec<Json>, n: int) -> Seq<JsonView>
    decreases a, n,
{
    if 0 < n <= a@.len() {
        items_view(a, n - 1).push(json_view(a@[n - 1]))
    } else {
        seq![]
    }
}

/// The views of the first `n` members of `o`.
pub open spec fn members_view(o: Vec<(String, Json)>, n: int) -> Seq<(Seq<char>, JsonView)>
    decreases o, n,
{
    if 0 < n <= o@.len() {
        members_view(o, n - 1).push((o@[n - 1].0@, json_view(o@[n - 1].1)))
    } else {
        seq![]
    }
}

} // verus!

verus! {

pub proof fn lemma_members_view(o: Vec<(String, Json)>, n: int)
    requires
        0 <= n <= o@.len(),
    ensures
        members_view(o, n).len() == n,
        forall|q: int| 0 <= q < n ==> #[trigger] members_view(o, n)[q] == (o@[q].0@, o@[q].1@),
    decreases n,
{
    if n > 0 {
        lemma_members_view(o, n - 1);
    }
}

pub proof fn lemma_items_view(a: Vec<Json>, n: int)
    requires
        0 <= n <= a@.len(),
    ensures
        items_view(a, n).len() == n,
        forall|q: int| 0 <= q < n ==> #[trigger] items_view(a, n)[q] == a@[q]@,
    decreases n,
{
    if n > 0 {
        lemma_items_view(a, n - 1);
    }
}

/// The value of the first member named `k` among `ms`.
pub open spec fn first_member(ms: Seq<(Seq<char>, JsonView)>, k: Seq<char>) -> Option<JsonView>
    decreases ms.len(),
{
    if ms.len() == 0 {
        None
    } else if ms[0].0 == k {
        Some(ms[0].1)
    } else {
        first_member(ms.drop_first(), k)
    }
}

/// The member `k` of an object; nothing for other values.
pub open spec fn field(j: JsonView, k: Seq<char>) -> Option<JsonView> {
    match j {
        JsonView::Object(ms) => first_member(ms, k),
        _ => None,
    }
}

pub open spec fn str_of(j: JsonView) -> Option<Seq<char>> {
    match j {
        JsonView::Str(s) => Some(s),
        _ => None,
    }
}

/// Digits only, at least one, after the first `a` characters.
pub open spec fn digits_from(t: Seq<char>, a: int) -> bool {
    a < t.len() && a + run_len(t, a, CharClass::Digit) == t.len()
}

/// A number written as a non-negative integer that fits a `usize`.
pub open spec fn usize_of(j: JsonView) -> Option<usize> {
    match j {
        JsonView::Number(t) => if digits_from(t, 0) && digits_value(t) <= usize::MAX {
            Some(digits_value(t) as usize)
        } else {
            None
        },
        _ => None,
    }
}

/// The integer written by `t`, an optional minus sign and digits.
pub open spec fn int_value(t: Seq<char>) -> int {
    let m = digits_value(t.subrange(sign_len(t), t.len() as int));
    if sign_len(t) == 1 {
        -m
    } else {
        m as int
    }
}

/// A number written as an integer that fits an `isize`.
pub open spec fn isize_of(j: JsonView) -> Option<isize> {
    match j {
        JsonView::Number(t) => if digits_from(t, sign_len(t)) && isize::MIN <= int_value(t)
            <= isize::MAX {
            Some(int_value(t) as isize)
        } else {
            None
        },
        _ => None,
    }
}

/// A number read in thousandths.
pub open spec fn thousandths_of(j: JsonView) -> Option<i64> {
    match j {
        JsonView::Number(t) => if is_thousandths(t) {
            Some(decimal_thousandths(t) as i64)
        } else {
            None
        },
        _ => None,
    }
}

pub(crate) fn same_text(a: &String, b: &str) -> (r: bool)
    ensures
        r == (a@ == b@),
{
    let x = chars_of(a.as_str());
    let y = chars_of(b);
    if x.len() != y.len() {
        return false;
    }
    let mut i: usize = 0;
    while i < x.len()
        invariant
            x@ == a@,
            y@ == b@,
            x@.len() == y@.len(),
            i <= x@.len(),
            forall|j: int| 0 <= j < i ==> x@[j] == y@[j],
        decreases x@.len() - i,
    {
        if x[i] != y[i] {
            assert(x@[i as int] != y@[i as int]);
            return false;
        }
        i = i + 1;
    }
    assert(x@ == y@);
    true
}

/// The value of the digits `s[from..to]` where it fits a `u64`.
fn digits_u64(s: &Vec<char>, from: usize, to: usize) -> (r: Option<u64>)
    requires
        from <= to <= s@.len(),
        all_digits(s@.subrange(from as int, to as int)),
    ensures
        r is Some <==> digits_value(s@.subrange(from as int, to as int)) <= u64::MAX,
        r matches Some(v) ==> v == digits_value(s@.subrange(from as int, to as int)),
{
    let ghost whole = s@.subrange(from as int, to as int);
    let mut v: u64 = 0;
    let mut i = from;
    while i < to
        invariant
            from <= i <= to <= s@.len(),
            whole == s@.subrange(from as int, to as int),
            all_digits(whole),
            v == digits_value(s@.subrange(from as int, i as int)),
        decreases to - i,
    {
        assert(s@[i as int] == whole[i - from]);
        let d = (s[i] as u32 - 48) as u64;
        let ghost next = s@.subrange(from as int, i + 1);
        assert(next.drop_last() == s@.subrange(from as int, i as int));
        assert(digits_value(next) == v * 10 + d);
        if v > (u64::MAX - d) / 10 {
            proof {
                assert(whole.take(i + 1 - from) == next);
                lemma_digits_prefix(whole, i + 1 - from);
            }
            return None;
        }
        v = v * 10 + d;
        i = i + 1;
    }
    Some(v)
}

impl Json {
    /// The member named `k`, at its first occurrence, where this is an object.
    pub fn get(&self, k: &str) -> (r: Option<&Json>)
        ensures
            r matches Some(v) ==> field(self@, k@) == Some(v@),
            r is None ==> field(self@, k@) is None,
    {
        match self {
            Json::Object(o) => {
                let ghost ms = self@->Object_0;
                proof {
                    lemma_members_view(*o, o@.len() as int);
                }
                assert(ms == members_view(*o, o@.len() as int));
                let mut i: usize = 0;
                assert(ms.skip(0) == ms);
                while i < o.len()
                    invariant
                        i <= o@.len() == ms.len(),
                        self@ == JsonView::Object(ms),
                        forall|q: int|
                            0 <= q < ms.len() ==> #[trigger] ms[q] == (o@[q].0@, o@[q].1@),
                        first_member(ms, k@) == first_member(ms.skip(i as int), k@),
                    decreases o@.len() - i,
                {
                    assert(ms.skip(i as int).drop_first() == ms.skip(i + 1));
                    assert(ms.skip(i as int)[0] == ms[i as int]);
                    if same_text(&o[i].0, k) {
                        assert(first_member(ms.skip(i as int), k@) == Some(o@[i as int].1@));
                        return Some(&o[i].1);
                    }
                    i = i + 1;
                }
                None
            },
            _ => None,
        }
    }

    /// The text of a string value.
    pub fn text(&self) -> (r: Option<String>)
        ensures
            r matches Some(s) ==> str_of(self@) == Some(s@),
            r is None ==> str_of(self@) is None,
    {
        match self {
            Json::Str(s) => Some(s.clone()),
            _ => None,
        }
    }

    /// A number written as a non-negative integer that fits a `usize`.
    pub fn to_usize(&self) -> (r: Option<usize>)
        ensures
            r == usize_of(self@),
    {
        match self {
            Json::Number(t) => {
                let s = chars_of(t.as_str());
                let e = run_end(&s, 0, CharClass::Digit);
                if s.len() == 0 || e != s.len() {
                    return None;
                }
                proof {
                    lemma_run_in_class(s@, 0, CharClass::Digit);
                    assert(s@.subrange(0, s@.len() as int) == s@);
                }
                match digits_u64(&s, 0, s.len()) {
                    Some(v) => if v <= usize::MAX as u64 {
                        Some(v as usize)
                    } else {
                        None
                    },
                    None => None,
                }
            },
            _ => None,
        }
    }

    /// A number written as an integer that fits an `isize`.
    pub fn to_isize(&self) -> (r: Option<isize>)
        ensures
            r == isize_of(self@),
    {
        match self {
            Json::Number(t) => {
                let s = chars_of(t.as_str());
                let a: usize = if s.len() > 0 && s[0] == '-' {
                    1
                } else {
                    0
                };
                let e = run_end(&s, a, CharClass::Digit);
                if a >= s.len() || e != s.len() {
                    return None;
                }
                proof {
                    lemma_run_in_class(s@, a as int, CharClass::Digit);
                }
                assert(all_digits(s@.subrange(a as int, s@.len() as int)));
                match digits_u64(&s, a, s.len()) {
                    Some(m) => if a == 1 {
                        if m <= isize::MAX as u64 + 1 {
                            Some((0i128 - m as i128) as isize)
                        } else {
                            None
                        }
                    } else {
                        if m <= isize::MAX as u64 {
                            Some(m as isize)
                        } else {
                            None
                        }
                    },
                    None => None,
                }
            },
            _ => None,
        }
    }

    /// A number read in thousandths.
    pub fn to_thousandths(&self) -> (r: Option<i64>)
        ensures
            r == thousandths_of(self@),
    {
        match self {
            Json::Number(t) => {
                let s = chars_of(t.as_str());
                assert(s@.subrange(0, s@.len() as int) == s@);
                parse_thousandths(&s, 0, s.len())
            },
            _ => None,
        }
    }
}

impl Json {
    pub fn is_null(&self) -> (r: bool)
        ensures
            r == (self@ is Null),
    {
        match self {
            Json::Null => true,
            _ => false,
        }
    }

    pub fn is_object(&self) -> (r: bool)
        ensures
            r == (self@ is Object),
    {
        match self {
            Json::Object(_) => true,
            _ => false,
        }
    }

    /// A copy holding the same value.
    pub fn duplicate(&self) -> (r: Json)
        ensures
            r@ == self@,
        decreases self,
    {
        match self {
            Json::Null => Json::Null,
            Json::Bool(b) => Json::Bool(*b),
            Json::Number(t) => Json::Number(t.clone()),
            Json::Str(s) => Json::Str(s.clone()),
            Json::Array(a) => {
                let mut out: Vec<Json> = Vec::new();
                let mut i: usize = 0;
                while i < a.len()
                    invariant
                        i <= a@.len(),
                        out@.len() == i,
                        *self == Json::Array(*a),
                        forall|q: int| 0 <= q < i ==> #[trigger] out@[q]@ == a@[q]@,
                    decreases a@.len() - i,
                {
                    assert(decreases_to!(*self => (*self)->Array_0));
                    assert(decreases_to!(*a => a@));
                    assert(decreases_to!(a@ => a@[i as int]));
                    assert(decreases_to!(*self => a@[i as int]));
                    let c = a[i].duplicate();
                    out.push(c);
                    i = i + 1;
                }
                proof {
                    lemma_items_view(out, out@.len() as int);
                    lemma_items_view(*a, a@.len() as int);
                    assert(items_view(out, out@.len() as int) == items_view(*a, a@.len() as int));
                }
                Json::Array(out)
            },
            Json::Object(o) => {
                let mut out: Vec<(String, Json)> = Vec::new();
                let mut i: usize = 0;
                while i < o.len()
                    invariant
                        i <= o@.len(),
                        out@.len() == i,
                        *self == Json::Object(*o),
                        forall|q: int|
                            0 <= q < i ==> #[trigger] out@[q].0@ == o@[q].0@ && out@[q].1@
                                == o@[q].1@,
                    decreases o@.len() - i,
                {
                    assert(decreases_to!(*self => (*self)->Object_0));
                    assert(decreases_to!(*o => o@));
                    assert(decreases_to!(o@[i as int] => o@[i as int].1));
                    assert(decreases_to!(o@ => o@[i as int]));
                    assert(decreases_to!(*self => o@[i as int].1));
                    let k = o[i].0.clone();
                    let v = o[i].1.duplicate();
                    out.push((k, v));
                    i = i + 1;
                }
                proof {
                    lemma_members_view(out, out@.len() as int);
                    lemma_members_view(*o, o@.len() as int);
                    assert(members_view(out, out@.len() as int) == members_view(
                        *o,
                        o@.len() as int,
                    ));
                }
                Json::Object(out)
            },
        }
    }
}

/// Looking up in a member list grown at the end finds an earlier member first.
pub broadcast proof fn lemma_first_member_push(
    ms: Seq<(Seq<char>, JsonView)>,
    e: (Seq<char>, JsonView),
    k: Seq<char>,
)
    ensures
        #[trigger] first_member(ms.push(e), k) == (if first_member(ms, k) is Some {
            first_member(ms, k)
        } else if e.0 == k {
            Some(e.1)
        } else {
            None
        }),
    decreases ms.len(),
{
    if ms.len() == 0 {
        assert(ms.push(e).drop_first() == ms);
    } else {
        assert(ms.push(e).drop_first() == ms.drop_first().push(e));
        lemma_first_member_push(ms.drop_first(), e, k);
    }
}

/// Looking up in two joined member lists searches the first, then the second.
pub broadcast proof fn lemma_first_member_concat(
    a: Seq<(Seq<char>, JsonView)>,
    b: Seq<(Seq<char>, JsonView)>,
    k: Seq<char>,
)
    ensures
        #[trigger] first_member(a + b, k) == (if first_member(a, k) is Some {
            first_member(a, k)
        } else {
            first_member(b, k)
        }),
    decreases a.len(),
{
    if a.len() == 0 {
        assert(a + b == b);
    } else {
        assert((a + b).drop_first() == a.drop_first() + b);
        lemma_first_member_concat(a.drop_first(), b, k);
    }
}

} // verus!
