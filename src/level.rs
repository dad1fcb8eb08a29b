//! Bed-levelling grid built from calibration samples.
//!
//! Coordinates and measurements are held in thousandths of a millimetre
//! (micrometres), so `25.0` mm is `25000` and `0.272` mm is `272`.
use vstd::prelude::*;

use crate::json::{jsons_view, Json, JsonView};
use crate::types::mc_print::{mc_print_view, McPrintValue, McPrintView};
use crate::types::report::{Report, ReportView};
use crate::text::{
    one_decimal, one_decimal_text, pad_left, pad_right, push_padded_left, push_padded_right,
    push_spaces, spaces, string_of, three_decimals, three_decimals_text,
};

verus! {

/// One levelling sample.
#[derive(Clone, Copy, PartialEq, Eq, Debug, Structural)]
pub struct Point {
    /// X location
    pub x: i64,
    /// Y location
    pub y: i64,
    /// Z offset
    pub c: i64,
    /// Z variance
    pub d: i64,
}

impl Point {
    pub fn new(x: i64, y: i64, c: i64, d: i64) -> (r: Self)
        ensures
            r == (Point { x, y, c, d }),
    {
        Point { x, y, c, d }
    }
}

/// Grid of levelling samples with its axes.
pub struct LevelMap {
    pub xs: Vec<i64>,
    pub ys: Vec<i64>,
    pub points: Vec<Point>,
}

/// The distinct values of `s`, each once, in the order they first appear.
pub open spec fn first_seen(s: Seq<i64>) -> Seq<i64>
    decreases s.len(),
{
    if s.len() == 0 {
        seq![]
    } else {
        let r = first_seen(s.drop_last());
        if r.contains(s.last()) {
            r
        } else {
            r.push(s.last())
        }
    }
}

/// The first sample of `ps` taken at exactly `(x, y)`.
pub open spec fn sample_at(ps: Seq<Point>, x: i64, y: i64) -> Option<Point>
    decreases ps.len(),
{
    if ps.len() == 0 {
        None
    } else if ps[0].x == x && ps[0].y == y {
        Some(ps[0])
    } else {
        sample_at(ps.drop_first(), x, y)
    }
}

/// One grid cell: the z offset with three decimals in a field of six, or a
/// placeholder where no sample exists.
pub open spec fn cell_text(p: Option<Point>) -> Seq<char> {
    match p {
        Some(p) => pad_left(three_decimals_text(p.c as int), 6).push(' '),
        None => seq!['?', '?', '?', '?', '?', ' '],
    }
}

/// The column headings for `xs`.
pub open spec fn header_text(xs: Seq<i64>) -> Seq<char>
    decreases xs.len(),
{
    if xs.len() == 0 {
        seq![]
    } else {
        header_text(xs.drop_last()) + pad_right(one_decimal_text(xs.last() as int), 7)
    }
}

/// The cells of the row at `y`, one per column of `xs`.
pub open spec fn cells_text(ps: Seq<Point>, xs: Seq<i64>, y: i64) -> Seq<char>
    decreases xs.len(),
{
    if xs.len() == 0 {
        seq![]
    } else {
        cells_text(ps, xs.drop_last(), y) + cell_text(sample_at(ps, xs.last(), y))
    }
}

/// One grid line: the y heading, then the cells, then a line break.
pub open spec fn row_text(ps: Seq<Point>, xs: Seq<i64>, y: i64) -> Seq<char> {
    pad_left(one_decimal_text(y as int), 5) + seq![':', ' '] + cells_text(ps, xs, y) + seq!['\n']
}

/// The grid lines for the rows `ys`.
pub open spec fn rows_text(ps: Seq<Point>, xs: Seq<i64>, ys: Seq<i64>) -> Seq<char>
    decreases ys.len(),
{
    if ys.len() == 0 {
        seq![]
    } else {
        rows_text(ps, xs, ys.drop_last()) + row_text(ps, xs, ys.last())
    }
}

/// The whole rendering: eight spaces, the headings, a line break, the rows.
pub open spec fn grid_text(xs: Seq<i64>, ys: Seq<i64>, ps: Seq<Point>) -> Seq<char> {
    spaces(8) + header_text(xs) + seq!['\n'] + rows_text(ps, xs, ys)
}

fn contains_value(v: &Vec<i64>, a: i64) -> (r: bool)
    ensures
        r == v@.contains(a),
{
    let mut i: usize = 0;
    while i < v.len()
        invariant
            i <= v@.len(),
            forall|j: int| 0 <= j < i ==> v@[j] != a,
        decreases v@.len() - i,
    {
        if v[i] == a {
            return true;
        }
        i = i + 1;
    }
    false
}

impl LevelMap {
    /// The axes are the distinct sample coordinates in first-seen order;
    /// every sample is kept as given.
    pub open spec fn wf(&self) -> bool {
        &&& self.xs@ == first_seen(self.points@.map_values(|p: Point| p.x))
        &&& self.ys@ == first_seen(self.points@.map_values(|p: Point| p.y))
    }

    /// Builds the grid of `points`.
    pub fn new(points: Vec<Point>) -> (r: Self)
        ensures
            r.points@ == points@,
            r.xs@ == first_seen(points@.map_values(|p: Point| p.x)),
            r.ys@ == first_seen(points@.map_values(|p: Point| p.y)),
            r.wf(),
    {
        let mut xs: Vec<i64> = Vec::new();
        let mut ys: Vec<i64> = Vec::new();
        let mut i: usize = 0;
        while i < points.len()
            invariant
                i <= points@.len(),
                xs@ == first_seen(points@.subrange(0, i as int).map_values(|p: Point| p.x)),
                ys@ == first_seen(points@.subrange(0, i as int).map_values(|p: Point| p.y)),
            decreases points@.len() - i,
        {
            let p = points[i];
            let ghost pre = points@.subrange(0, i as int);
            let ghost post = points@.subrange(0, i + 1);
            assert(post.map_values(|p: Point| p.x).drop_last() == pre.map_values(|p: Point| p.x));
            assert(post.map_values(|p: Point| p.y).drop_last() == pre.map_values(|p: Point| p.y));
            if !contains_value(&xs, p.x) {
                xs.push(p.x);
            }
            if !contains_value(&ys, p.y) {
                ys.push(p.y);
            }
            i = i + 1;
        }
        assert(points@.subrange(0, points@.len() as int) == points@);
        LevelMap { xs, ys, points }
    }

    /// The first sample taken at exactly `(x, y)`.
    pub fn value(&self, x: i64, y: i64) -> (r: Option<&Point>)
        ensures
            r matches Some(p) ==> sample_at(self.points@, x, y) == Some(*p),
            r is None ==> sample_at(self.points@, x, y) is None,
    {
        assert(self.points@.subrange(0, self.points@.len() as int) == self.points@);
        let mut i: usize = 0;
        while i < self.points.len()
            invariant
                i <= self.points@.len(),
                sample_at(self.points@, x, y) == sample_at(
                    self.points@.subrange(i as int, self.points@.len() as int),
                    x,
                    y,
                ),
            decreases self.points@.len() - i,
        {
            let ghost rest = self.points@.subrange(i as int, self.points@.len() as int);
            assert(rest.drop_first() == self.points@.subrange(i + 1, self.points@.len() as int));
            if self.points[i].x == x && self.points[i].y == y {
                return Some(&self.points[i]);
            }
            i = i + 1;
        }
        None
    }

    /// The grid as text: a heading line with each x in millimetres to one
    /// decimal, left-aligned in seven columns, after eight spaces; then for
    /// each y a line with y to one decimal right-aligned in five columns,
    /// `": "`, and for each x the z offset of the sample at `(x, y)` with three
    /// decimals right-aligned in six columns and a space, or `"????? "`.
    pub fn render(&self) -> (r: String)
        ensures
            r@ == grid_text(self.xs@, self.ys@, self.points@),
    {
        let mut out: Vec<char> = Vec::new();
        push_spaces(&mut out, 8);
        let mut i: usize = 0;
        while i < self.xs.len()
            invariant
                i <= self.xs@.len(),
                out@ == spaces(8) + header_text(self.xs@.subrange(0, i as int)),
            decreases self.xs@.len() - i,
        {
            assert(self.xs@.subrange(0, i + 1).drop_last() == self.xs@.subrange(0, i as int));
            let mut t = one_decimal(self.xs[i]);
            push_padded_right(&mut out, &mut t, 7);
            i = i + 1;
        }
        assert(self.xs@.subrange(0, self.xs@.len() as int) == self.xs@);
        out.push('\n');
        let ghost head = out@;
        let mut j: usize = 0;
        while j < self.ys.len()
            invariant
                j <= self.ys@.len(),
                out@ == head + rows_text(self.points@, self.xs@, self.ys@.subrange(0, j as int)),
            decreases self.ys@.len() - j,
        {
            assert(self.ys@.subrange(0, j + 1).drop_last() == self.ys@.subrange(0, j as int));
            let y = self.ys[j];
            let mut row: Vec<char> = Vec::new();
            let mut t = one_decimal(y);
            push_padded_left(&mut row, &mut t, 5);
            row.push(':');
            row.push(' ');
            let ghost lead = row@;
            let mut k: usize = 0;
            while k < self.xs.len()
                invariant
                    k <= self.xs@.len(),
                    row@ == lead + cells_text(self.points@, self.xs@.subrange(0, k as int), y),
                decreases self.xs@.len() - k,
            {
                assert(self.xs@.subrange(0, k + 1).drop_last() == self.xs@.subrange(0, k as int));
                match self.value(self.xs[k], y) {
                    Some(p) => {
                        let mut t = three_decimals(p.c);
                        push_padded_left(&mut row, &mut t, 6);
                        row.push(' ');
                    },
                    None => {
                        row.push('?');
                        row.push('?');
                        row.push('?');
                        row.push('?');
                        row.push('?');
                        row.push(' ');
                    },
                }
                k = k + 1;
            }
            assert(self.xs@.subrange(0, self.xs@.len() as int) == self.xs@);
            row.push('\n');
            out.append(&mut row);
            j = j + 1;
        }
        assert(self.ys@.subrange(0, self.ys@.len() as int) == self.ys@);
        string_of(&out)
    }
}

/// The sample a diagnostic line carries, where it is a measurement that reads.
pub open spec fn measurement_of(s: Seq<char>) -> Option<Point> {
    match mc_print_view(s) {
        Ok(McPrintView::BmcMeas { x, y, z_c, z_d }) => Some(Point { x, y, c: z_c, d: z_d }),
        _ => None,
    }
}

/// The samples of the measurement lines among `ls`, in order.
pub open spec fn measurements_of(ls: Seq<String>) -> Seq<Point>
    decreases ls.len(),
{
    if ls.len() == 0 {
        seq![]
    } else {
        match measurement_of(ls.last()@) {
            Some(p) => measurements_of(ls.drop_last()).push(p),
            None => measurements_of(ls.drop_last()),
        }
    }
}

/// The diagnostic parameters of the `mc_print` reports among `rs`, in order.
pub open spec fn diagnostics_of(rs: Seq<Report>) -> Seq<JsonView>
    decreases rs.len(),
{
    if rs.len() == 0 {
        seq![]
    } else {
        match rs.last()@ {
            ReportView::McPrint { param, .. } => diagnostics_of(rs.drop_last()).push(param),
            _ => diagnostics_of(rs.drop_last()),
        }
    }
}

/// The parameters of the diagnostic (`mc_print`) reports, in order.
pub fn diagnostic_params(reports: &Vec<Report>) -> (r: Vec<Json>)
    ensures
        jsons_view(r@) == diagnostics_of(reports@),
{
    let mut out: Vec<Json> = Vec::new();
    let mut i: usize = 0;
    while i < reports.len()
        invariant
            i <= reports@.len(),
            jsons_view(out@) == diagnostics_of(reports@.subrange(0, i as int)),
        decreases reports@.len() - i,
    {
        assert(reports@.subrange(0, i + 1).drop_last() == reports@.subrange(0, i as int));
        match &reports[i] {
            Report::McPrint { param, .. } => {
                let ghost before = out@;
                out.push(param.duplicate());
                assert(jsons_view(out@) == jsons_view(before).push(param@));
            },
            _ => {},
        }
        i = i + 1;
    }
    assert(reports@.subrange(0, reports@.len() as int) == reports@);
    out
}

/// The bed samples among diagnostic lines: each line that is a measurement
/// whose numbers read gives one point (offset `z_c`, variance `z_d`); the
/// others are skipped.
pub fn measurement_points(lines: &Vec<String>) -> (r: Vec<Point>)
    ensures
        r@ == measurements_of(lines@),
{
    let mut out: Vec<Point> = Vec::new();
    let mut i: usize = 0;
    while i < lines.len()
        invariant
            i <= lines@.len(),
            out@ == measurements_of(lines@.subrange(0, i as int)),
        decreases lines@.len() - i,
    {
        assert(lines@.subrange(0, i + 1).drop_last() == lines@.subrange(0, i as int));
        match McPrintValue::parse(lines[i].as_str()) {
            Ok(McPrintValue::BmcMeas { x, y, z_c, z_d }) => {
                out.push(Point { x, y, c: z_c, d: z_d });
            },
            _ => {},
        }
        i = i + 1;
    }
    assert(lines@.subrange(0, lines@.len() as int) == lines@);
    out
}

} // verus!
