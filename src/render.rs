//! The cell renderer's planning: merging each grid row into runs of
//! near-equal colors, centering the grid in the draw area, and the zoom figure
//! of the status line.

use vstd::prelude::*;
use crate::color::{Rgb, MERGE_THRESHOLD, mergeable, color_distance};
use crate::raster::Raster;
use crate::viewport::{Viewport, SCALE};

verus! {

/// `len` cells of `color` from column `start` of a grid row, drawn at once.
#[derive(Clone, Copy, Debug, PartialEq, Eq, Structural)]
pub struct Span {
    pub start: usize,
    pub len: usize,
    pub color: Rgb,
}

/// The runs closed after reading the first `n` cells of `row`, and the start of
/// the run still open; a run is anchored at its first cell and takes each next
/// cell within the merge threshold of that anchor.
pub open spec fn scan_runs(row: Seq<Rgb>, n: int) -> (Seq<Span>, int)
    decreases n,
{
    if n <= 1 {
        (Seq::empty(), 0)
    } else {
        let (done, st) = scan_runs(row, n - 1);
        if mergeable(row[st], row[n - 1]) {
            (done, st)
        } else {
            (done.push(Span { start: st as usize, len: (n - 1 - st) as usize, color: row[st] }), n - 1)
        }
    }
}

/// The runs of a whole row, left to right.
pub open spec fn row_spans(row: Seq<Rgb>) -> Seq<Span> {
    if row.len() == 0 {
        Seq::empty()
    } else {
        let (done, st) = scan_runs(row, row.len() as int);
        done.push(Span { start: st as usize, len: (row.len() - st) as usize, color: row[st] })
    }
}

/// Run `s` is well formed in `row`: at least one cell long, colored as its
/// first cell, and every cell of it within the threshold of that color.
pub open spec fn run_fits(row: Seq<Rgb>, s: Span) -> bool {
    &&& s.len >= 1
    &&& s.start + s.len <= row.len()
    &&& s.color == row[s.start as int]
    &&& forall|c: int| s.start <= c < s.start + s.len ==> mergeable(s.color, #[trigger] row[c])
}

/// What holds of the runs closed and the run open after reading `n` cells.
pub open spec fn scan_state(row: Seq<Rgb>, done: Seq<Span>, st: int, n: int) -> bool {
    &&& 0 <= st < n <= row.len()
    &&& (done.len() == 0 ==> st == 0)
    &&& (done.len() > 0 ==> done[0].start == 0 && done.last().start + done.last().len == st)
    &&& forall|i: int| 0 <= i < done.len() - 1 ==> (#[trigger] done[i + 1]).start == done[i].start + done[i].len
    &&& forall|i: int| 0 <= i < done.len() ==> run_fits(row, #[trigger] done[i])
    &&& forall|i: int| 0 <= i < done.len() ==> !mergeable((#[trigger] done[i]).color, row[done[i].start + done[i].len])
    &&& forall|c: int| st <= c < n ==> mergeable(row[st], #[trigger] row[c])
}

proof fn lemma_scan_state(row: Seq<Rgb>, n: int)
    requires
        1 <= n <= row.len(),
        row.len() <= usize::MAX,
    ensures
        scan_state(row, scan_runs(row, n).0, scan_runs(row, n).1, n),
    decreases n,
{
    if n > 1 {
        lemma_scan_state(row, n - 1);
        let (done, st) = scan_runs(row, n - 1);
        if !mergeable(row[st], row[n - 1]) {
            let s = Span { start: st as usize, len: (n - 1 - st) as usize, color: row[st] };
            let nd = done.push(s);
            assert(run_fits(row, s));
            assert forall|i: int| 0 <= i < nd.len() implies run_fits(row, #[trigger] nd[i]) by {
                if i < done.len() {
                    assert(nd[i] == done[i]);
                }
            }
            assert forall|i: int| 0 <= i < nd.len() implies !mergeable((#[trigger] nd[i]).color, row[nd[i].start + nd[i].len]) by {
                if i < done.len() {
                    assert(nd[i] == done[i]);
                }
            }
            assert forall|i: int| 0 <= i < nd.len() - 1 implies (#[trigger] nd[i + 1]).start == nd[i].start + nd[i].len by {
                if i < done.len() - 1 {
                    assert(nd[i + 1] == done[i + 1]);
                    assert(nd[i] == done[i]);
                } else {
                    assert(nd[i] == done.last());
                }
            }
            assert(mergeable(row[n - 1], row[n - 1]));
            assert(scan_state(row, nd, n - 1, n));
        } else {
            assert(scan_state(row, done, st, n));
        }
    } else {
        assert(mergeable(row[0], row[0]));
    }
}

/// The runs of a row tile it from the first column to the last, each run at
/// least one cell long; each run has the color of its first cell, every cell
/// of a run is within the merge threshold of that color, and the cell right
/// after a run that ends before the row does is not.
pub proof fn lemma_row_spans_tile(row: Seq<Rgb>)
    requires
        1 <= row.len() <= usize::MAX,
    ensures
        row_spans(row).len() >= 1,
        row_spans(row)[0].start == 0,
        row_spans(row).last().start + row_spans(row).last().len == row.len(),
        forall|i: int| 0 <= i < row_spans(row).len() - 1 ==>
            (#[trigger] row_spans(row)[i + 1]).start == row_spans(row)[i].start + row_spans(row)[i].len,
        forall|i: int| 0 <= i < row_spans(row).len() ==> run_fits(row, #[trigger] row_spans(row)[i]),
        forall|i: int| 0 <= i < row_spans(row).len() - 1 ==>
            !mergeable((#[trigger] row_spans(row)[i]).color, row[row_spans(row)[i].start + row_spans(row)[i].len]),
{
    let n = row.len() as int;
    lemma_scan_state(row, n);
    let (done, st) = scan_runs(row, n);
    let s = Span { start: st as usize, len: (n - st) as usize, color: row[st] };
    let r = done.push(s);
    assert(r == row_spans(row));
    assert(run_fits(row, s));
    assert forall|i: int| 0 <= i < r.len() implies run_fits(row, #[trigger] r[i]) by {
        if i < done.len() {
            assert(r[i] == done[i]);
        }
    }
    assert forall|i: int| 0 <= i < r.len() - 1 implies !mergeable((#[trigger] r[i]).color, row[r[i].start + r[i].len]) by {
        assert(r[i] == done[i]);
    }
    assert forall|i: int| 0 <= i < r.len() - 1 implies (#[trigger] r[i + 1]).start == r[i].start + r[i].len by {
        if i < done.len() - 1 {
            assert(r[i + 1] == done[i + 1]);
            assert(r[i] == done[i]);
        } else {
            assert(r[i] == done.last());
        }
    }
    if done.len() > 0 {
        assert(r[0] == done[0]);
    }
}

/// Splits row `y` of `grid` into runs of near-equal colors.
pub fn merge_row(grid: &Raster, y: u32) -> (r: Vec<Span>)
    requires
        grid.wf(),
        y < grid.height,
    ensures
        r@ == row_spans(grid.row(y as int)),
{
    let ghost row = grid.row(y as int);
    let w: u32 = grid.width;
    let mut spans: Vec<Span> = Vec::new();
    if w == 0 {
        return spans;
    }
    let mut anchor: Rgb = grid.get_pixel(0, y);
    let mut start: u32 = 0;
    let mut x: u32 = 1;
    while x < w
        invariant
            grid.wf(),
            y < grid.height,
            w == grid.width,
            row == grid.row(y as int),
            1 <= x <= w,
            start < x,
            scan_runs(row, x as int) == (spans@, start as int),
            anchor == row[start as int],
        decreases w - x,
    {
        let p: Rgb = grid.get_pixel(x, y);
        if color_distance(&p, &anchor) > MERGE_THRESHOLD {
            spans.push(Span { start: start as usize, len: (x - start) as usize, color: anchor });
            anchor = p;
            start = x;
        }
        x = x + 1;
    }
    spans.push(Span { start: start as usize, len: (w - start) as usize, color: anchor });
    spans
}

/// The blank cells before a grid `used` long in an area `avail` long: half of
/// what is left over, rounded down, and none when the grid does not fit.
pub open spec fn padding_spec(avail: int, used: int) -> int {
    if avail > used { (avail - used) / 2 } else { 0 }
}

pub fn padding(avail: usize, used: u32) -> (r: usize)
    ensures
        r == padding_spec(avail as int, used as int),
{
    if avail > used as usize { (avail - used as usize) / 2 } else { 0 }
}

/// The zoom figure of the status line: `100 / width` for the normalized
/// width, rounded to the nearest integer (halves up).
pub open spec fn zoom_percent_spec(v: Viewport) -> int {
    (200 * SCALE + v.width()) / (2 * v.width())
}

pub fn zoom_percent(v: &Viewport) -> (r: u64)
    requires
        v.x0 < v.x1 <= SCALE,
    ensures
        r == zoom_percent_spec(*v),
{
    let w: u64 = v.x1 - v.x0;
    (200 * SCALE + w) / (2 * w)
}

} // verus!
