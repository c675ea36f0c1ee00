//! Where things go on screen: the row of key strokes, the window that shows
//! it, and windows kept on the virtual screen.
use vstd::prelude::*;

use crate::text::{
    chars_of, find_char, int_text, parse_i32, parse_int, push_int, split_once, string_of, trim,
    trim_range,
};

verus! {

// ------------------------------------------------------------------
// The virtual screen
// ------------------------------------------------------------------

/// The virtual screen: the rectangle that spans all monitors.
#[derive(Clone, Copy, Debug)]
pub struct Screen {
    pub left: i32,
    pub top: i32,
    pub width: i32,
    pub height: i32,
}

pub open spec fn fits_i32(v: int) -> bool {
    i32::MIN <= v <= i32::MAX
}

/// The screen's right and bottom edges can be computed.
pub open spec fn screen_ok(vs: Screen) -> bool {
    fits_i32(vs.left + vs.width) && fits_i32(vs.top + vs.height)
}

impl Screen {
    /// The screen's left, top, right and bottom edges.
    pub fn bounds(&self) -> (r: (i32, i32, i32, i32))
        requires
            screen_ok(*self),
        ensures
            r == (self.left, self.top, (self.left + self.width) as i32, (self.top + self.height)
                as i32),
    {
        (self.left, self.top, self.left + self.width, self.top + self.height)
    }
}

/// `v` kept within `lo..=hi`, and at `lo` where `hi < lo`.
pub open spec fn clamp(v: int, lo: int, hi: int) -> int {
    let m = if v > lo {
        v
    } else {
        lo
    };
    let top = if hi > lo {
        hi
    } else {
        lo
    };
    if m < top {
        m
    } else {
        top
    }
}

fn clamp_exec(v: i32, lo: i32, hi: i32) -> (r: i32)
    ensures
        r == clamp(v as int, lo as int, hi as int),
{
    let m = if v > lo {
        v
    } else {
        lo
    };
    let top = if hi > lo {
        hi
    } else {
        lo
    };
    if m < top {
        m
    } else {
        top
    }
}

/// A window of size `w` by `h` at `(x, y)` can be kept on the screen `vs`.
pub open spec fn clamp_ok(w: i32, h: i32, vs: Screen) -> bool {
    &&& screen_ok(vs)
    &&& fits_i32(vs.left + vs.width - w)
    &&& fits_i32(vs.top + vs.height - h)
}

/// The top-left corner of a `w` by `h` window at `(x, y)` moved as little as
/// needed to keep the window on the screen `vs`; a window wider or taller than
/// the screen is put at its left or top edge.
pub fn clamp_pos(x: i32, y: i32, w: i32, h: i32, vs: Screen) -> (r: (i32, i32))
    requires
        clamp_ok(w, h, vs),
    ensures
        r.0 == clamp(x as int, vs.left as int, vs.left + vs.width - w),
        r.1 == clamp(y as int, vs.top as int, vs.top + vs.height - h),
{
    let vr = vs.left + vs.width;
    let vb = vs.top + vs.height;
    (clamp_exec(x, vs.left, vr - w), clamp_exec(y, vs.top, vb - h))
}

/// Where the settings window of size `w` by `h` first opens: 8 pixels in
/// from the bottom-right corner `(right, bottom)` of the work area; `None`
/// where that leaves the `i32` range.
pub fn near_corner(right: i32, bottom: i32, w: i32, h: i32) -> (r: Option<(i32, i32)>)
    ensures
        fits_i32(right - w - 8) && fits_i32(bottom - h - 8) ==> r == Some(
            ((right - w - 8) as i32, (bottom - h - 8) as i32),
        ),
        !(fits_i32(right - w - 8) && fits_i32(bottom - h - 8)) ==> r is None,
{
    let x = right as i64 - w as i64 - 8;
    let y = bottom as i64 - h as i64 - 8;
    if x < i32::MIN as i64 || x > i32::MAX as i64 || y < i32::MIN as i64 || y > i32::MAX as i64 {
        None
    } else {
        Some((x as i32, y as i32))
    }
}

/// A kept position is on the screen, and the whole window is where it fits.
pub proof fn lemma_clamp_on_screen(x: i32, y: i32, w: i32, h: i32, vs: Screen)
    requires
        clamp_ok(w, h, vs),
    ensures
        vs.left <= clamp(x as int, vs.left as int, vs.left + vs.width - w),
        vs.top <= clamp(y as int, vs.top as int, vs.top + vs.height - h),
        w <= vs.width ==> clamp(x as int, vs.left as int, vs.left + vs.width - w) + w <= vs.left
            + vs.width,
        h <= vs.height ==> clamp(y as int, vs.top as int, vs.top + vs.height - h) + h <= vs.top
            + vs.height,
{
}

/// A position that is already kept does not move.
pub proof fn lemma_clamp_idempotent(v: int, lo: int, hi: int)
    ensures
        clamp(clamp(v, lo, hi), lo, hi) == clamp(v, lo, hi),
{
}

// ------------------------------------------------------------------
// The row of key strokes
// ------------------------------------------------------------------

pub open spec fn sum(ws: Seq<i32>) -> int
    decreases ws.len(),
{
    if ws.len() == 0 {
        0
    } else {
        sum(ws.drop_last()) + ws.last()
    }
}

pub open spec fn abs(v: int) -> int {
    if v < 0 {
        -v
    } else {
        v
    }
}

pub open spec fn sum_abs(ws: Seq<i32>) -> int
    decreases ws.len(),
{
    if ws.len() == 0 {
        0
    } else {
        sum_abs(ws.drop_last()) + abs(ws.last() as int)
    }
}

/// The width of pills of widths `ws` side by side, `gap` apart.
pub open spec fn row_width(ws: Seq<i32>, gap: int) -> int {
    sum(ws) + gap * (ws.len() - 1)
}

/// The widths and the gap are small enough for every sum of them to be an `i32`.
pub open spec fn row_ok(ws: Seq<i32>, gap: i32) -> bool {
    sum_abs(ws) + abs(gap as int) * ws.len() <= i32::MAX
}

/// Whether every sum of the widths `ws` and the gap is an `i32`, in the sense of `row_ok`.
pub fn row_fits(ws: &Vec<i32>, gap: i32) -> (r: bool)
    ensures
        r == row_ok(ws@, gap),
{
    let n = ws.len();
    let mut total: i128 = 0;
    let mut i: usize = 0;
    assert(ws@.take(0) =~= Seq::<i32>::empty());
    while i < n
        invariant
            i <= n,
            n == ws.len(),
            total == sum_abs(ws@.take(i as int)),
            0 <= total <= i * 0x8000_0000,
        decreases n - i,
    {
        assert(ws@.take(i + 1).drop_last() =~= ws@.take(i as int));
        let w = ws[i] as i128;
        total = total + if w < 0 {
            -w
        } else {
            w
        };
        i = i + 1;
    }
    assert(ws@.take(n as int) =~= ws@);
    let g = gap as i128;
    let ag = if g < 0 {
        -g
    } else {
        g
    };
    assert(ag * n <= 0x8000_0000 * n) by (nonlinear_arith)
        requires
            0 <= ag <= 0x8000_0000,
            n >= 0,
    ;
    assert(n <= usize::MAX);
    assert(0x8000_0000 * (n as int) <= 0x8000_0000 * 0xffff_ffff_ffff_ffff) by (nonlinear_arith)
        requires
            0 <= n <= 0xffff_ffff_ffff_ffff,
    ;
    total + ag * (n as i128) <= 0x7fff_ffff
}

/// Whether the size of a pill around a `tw` by `th` text with padding `pad`
/// can be computed.
pub fn pill_size_fits(tw: i32, th: i32, pad: (i32, i32)) -> (r: bool)
    ensures
        r == (fits_i32(pad.0 * 2) && fits_i32(pad.1 * 2) && fits_i32(tw + pad.0 * 2) && fits_i32(
            th + pad.1 * 2,
        )),
{
    let a = pad.0 as i64 * 2;
    let b = pad.1 as i64 * 2;
    let lo = i32::MIN as i64;
    let hi = i32::MAX as i64;
    lo <= a && a <= hi && lo <= b && b <= hi && lo <= tw as i64 + a && tw as i64 + a <= hi && lo
        <= th as i64 + b && th as i64 + b <= hi
}

fn fits(v: i64) -> (r: bool)
    ensures
        r == fits_i32(v as int),
{
    i32::MIN as i64 <= v && v <= i32::MAX as i64
}

/// Whether a window of size `w` by `h` can be kept on the screen `vs`, in the sense of `clamp_ok`.
pub fn clamp_fits(w: i32, h: i32, vs: Screen) -> (r: bool)
    ensures
        r == clamp_ok(w, h, vs),
{
    fits(vs.left as i64 + vs.width as i64) && fits(vs.top as i64 + vs.height as i64) && fits(
        vs.left as i64 + vs.width as i64 - w as i64,
    ) && fits(vs.top as i64 + vs.height as i64 - h as i64)
}

/// Whether the screen's edges can be computed.
pub fn screen_fits(vs: Screen) -> (r: bool)
    ensures
        r == screen_ok(vs),
{
    fits(vs.left as i64 + vs.width as i64) && fits(vs.top as i64 + vs.height as i64)
}

/// How many of the oldest pills, from `d` on, are left out so that the rest
/// fits in `avail`; one pill is always kept.
pub open spec fn drop_from(ws: Seq<i32>, gap: int, avail: int, d: int) -> int
    decreases ws.len() - d,
{
    if d < 0 || d + 1 >= ws.len() || row_width(ws.skip(d), gap) <= avail {
        d
    } else {
        drop_from(ws, gap, avail, d + 1)
    }
}

/// The pills left out are as few as possible: the rest fits in `avail`
/// unless a single pill is left, and leaving out fewer would not fit.
pub proof fn lemma_drop_fits(ws: Seq<i32>, gap: int, avail: int)
    requires
        ws.len() >= 1,
    ensures
        ({
            let d = drop_from(ws, gap, avail, 0);
            &&& 0 <= d < ws.len()
            &&& d == ws.len() - 1 || row_width(ws.skip(d), gap) <= avail
            &&& forall|k: int| 0 <= k < d ==> row_width(#[trigger] ws.skip(k), gap) > avail
        }),
{
    lemma_drop_from(ws, gap, avail, 0);
}

proof fn lemma_drop_from(ws: Seq<i32>, gap: int, avail: int, d: int)
    requires
        ws.len() >= 1,
        0 <= d < ws.len(),
    ensures
        ({
            let r = drop_from(ws, gap, avail, d);
            &&& d <= r < ws.len()
            &&& r == ws.len() - 1 || row_width(ws.skip(r), gap) <= avail
            &&& forall|k: int| d <= k < r ==> row_width(#[trigger] ws.skip(k), gap) > avail
        }),
    decreases ws.len() - d,
{
    if !(d + 1 >= ws.len() || row_width(ws.skip(d), gap) <= avail) {
        lemma_drop_from(ws, gap, avail, d + 1);
    }
}

/// The room a row has on a screen `sw` wide: a side margin of 24 on each side,
/// and at least 100.
pub open spec fn row_room(sw: int) -> int {
    if sw - 48 > 100 {
        sw - 48
    } else {
        100
    }
}

proof fn lemma_sum_abs_nonneg(ws: Seq<i32>)
    ensures
        sum_abs(ws) >= 0,
    decreases ws.len(),
{
    if ws.len() > 0 {
        lemma_sum_abs_nonneg(ws.drop_last());
    }
}

/// A part of the row sums to no more, in absolute value, than the whole row.
proof fn lemma_sum_part(ws: Seq<i32>, a: int, b: int)
    requires
        0 <= a <= b <= ws.len(),
    ensures
        abs(sum(ws.subrange(a, b))) <= sum_abs(ws.subrange(a, b)),
        sum_abs(ws.subrange(a, b)) <= sum_abs(ws),
    decreases ws.len(),
{
    if b < ws.len() {
        lemma_sum_part(ws.drop_last(), a, b);
        assert(ws.drop_last().subrange(a, b) =~= ws.subrange(a, b));
        lemma_sum_abs_nonneg(ws.drop_last());
    } else if a < b {
        let s = ws.subrange(a, b);
        lemma_sum_part(ws.drop_last(), a, b - 1);
        assert(ws.drop_last().subrange(a, b - 1) =~= s.drop_last());
        assert(s.last() == ws.last());
    } else {
        assert(ws.subrange(a, b) =~= Seq::<i32>::empty());
        lemma_sum_abs_nonneg(ws);
    }
}

/// The width of the pills `ws[d..]` side by side, `gap` apart.
fn suffix_width(ws: &Vec<i32>, d: usize, gap: i32) -> (r: i64)
    requires
        d < ws.len(),
        row_ok(ws@, gap),
    ensures
        r == row_width(ws@.skip(d as int), gap as int),
        fits_i32(r as int),
{
    let n = ws.len();
    let mut acc: i64 = 0;
    let mut i = d;
    assert(ws@.subrange(d as int, d as int) =~= Seq::<i32>::empty());
    while i < n
        invariant
            d <= i <= n,
            n == ws.len(),
            row_ok(ws@, gap),
            acc == sum(ws@.subrange(d as int, i as int)),
        decreases n - i,
    {
        proof {
            lemma_sum_part(ws@, d as int, i as int);
            lemma_sum_part(ws@, d as int, i + 1);
            assert(ws@.subrange(d as int, i + 1).drop_last() =~= ws@.subrange(d as int, i as int));
            lemma_sum_abs_nonneg(ws@);
            assert(abs(gap as int) * ws@.len() >= 0) by (nonlinear_arith)
                requires
                    ws@.len() >= 0,
            ;
        }
        acc = acc + ws[i] as i64;
        i = i + 1;
    }
    let k = n - d - 1;
    proof {
        assert(ws@.subrange(d as int, n as int) == ws@.skip(d as int));
        lemma_sum_part(ws@, d as int, n as int);
        lemma_sum_abs_nonneg(ws@);
        assert(0 <= k <= n);
        assert(abs(gap as int) * k <= abs(gap as int) * n) by (nonlinear_arith)
            requires
                0 <= k <= n,
        ;
        assert(abs(gap as int * k) == abs(gap as int) * k) by (nonlinear_arith)
            requires
                0 <= k,
        ;
        if gap != 0 {
            assert(abs(gap as int) * n >= n) by (nonlinear_arith)
                requires
                    abs(gap as int) >= 1,
                    n >= 0,
            ;
        }
    }
    let g: i64 = if gap == 0 {
        assert(gap as int * k == 0) by (nonlinear_arith)
            requires
                gap == 0,
        ;
        0
    } else {
        (gap as i64) * (k as i64)
    };
    assert(g == gap as int * k);
    acc + g
}

/// How many of the oldest of the pills of widths `widths` are left out so that
/// the row, `gap` apart, fits on a screen `sw` wide; one pill is always kept.
pub fn pills_to_drop(widths: &Vec<i32>, gap: i32, sw: i32) -> (d: usize)
    requires
        row_ok(widths@, gap),
        sw >= i32::MIN + 48,
    ensures
        d == drop_from(widths@, gap as int, row_room(sw as int), 0),
{
    let avail: i64 = if sw - 48 > 100 {
        (sw - 48) as i64
    } else {
        100
    };
    let n = widths.len();
    if n == 0 {
        return 0;
    }
    let mut d: usize = 0;
    while d < n - 1
        invariant
            d < n,
            n == widths.len(),
            row_ok(widths@, gap),
            avail == row_room(sw as int),
            drop_from(widths@, gap as int, avail as int, 0) == drop_from(
                widths@,
                gap as int,
                avail as int,
                d as int,
            ),
        decreases n - d,
    {
        let w = suffix_width(widths, d, gap);
        if w <= avail {
            return d;
        }
        d = d + 1;
    }
    d
}

/// The width of the pills `widths` side by side, `gap` apart.
pub fn row_total(widths: &Vec<i32>, gap: i32) -> (r: i32)
    requires
        widths.len() > 0,
        row_ok(widths@, gap),
    ensures
        r == row_width(widths@, gap as int),
{
    assert(widths@.skip(0) =~= widths@);
    suffix_width(widths, 0, gap) as i32
}

/// The largest of `hs`, 0 when there is none.
pub open spec fn max_of(hs: Seq<i32>) -> int
    decreases hs.len(),
{
    if hs.len() == 0 {
        0
    } else if hs.len() == 1 {
        hs[0] as int
    } else {
        let m = max_of(hs.drop_last());
        if hs.last() > m {
            hs.last() as int
        } else {
            m
        }
    }
}

/// The height of the row: its tallest pill, 0 when there is none.
pub fn row_height(heights: &Vec<i32>) -> (r: i32)
    ensures
        r == max_of(heights@),
{
    let n = heights.len();
    if n == 0 {
        return 0;
    }
    let mut m = heights[0];
    let mut i: usize = 1;
    assert(heights@.take(1) =~= seq![heights@[0]]);
    while i < n
        invariant
            1 <= i <= n,
            n == heights.len(),
            m == max_of(heights@.take(i as int)),
        decreases n - i,
    {
        assert(heights@.take(i + 1).drop_last() =~= heights@.take(i as int));
        if heights[i] > m {
            m = heights[i];
        }
        i = i + 1;
    }
    assert(heights@.take(n as int) =~= heights@);
    m
}

/// Where each pill of the row starts: after the pills before it, each followed by `gap`.
pub open spec fn pill_start(ws: Seq<i32>, gap: int, i: int) -> int {
    sum(ws.take(i)) + gap * i
}

/// The left edges of the pills `widths` laid out `gap` apart from 0.
pub fn pill_offsets(widths: &Vec<i32>, gap: i32) -> (r: Vec<i32>)
    requires
        row_ok(widths@, gap),
    ensures
        r.len() == widths.len(),
        forall|i: int| 0 <= i < r.len() ==> r@[i] == pill_start(widths@, gap as int, i),
{
    let n = widths.len();
    let mut r: Vec<i32> = Vec::new();
    let mut x: i64 = 0;
    let mut i: usize = 0;
    assert(widths@.take(0) =~= Seq::<i32>::empty());
    while i < n
        invariant
            i <= n,
            n == widths.len(),
            row_ok(widths@, gap),
            r.len() == i,
            x == pill_start(widths@, gap as int, i as int),
            forall|j: int| 0 <= j < i ==> r@[j] == pill_start(widths@, gap as int, j),
        decreases n - i,
    {
        proof {
            lemma_sum_part(widths@, 0, i as int);
            assert(widths@.subrange(0, i as int) == widths@.take(i as int));
            lemma_sum_abs_nonneg(widths@);
            assert(abs(gap as int) * (i as int) <= abs(gap as int) * n) by (nonlinear_arith)
                requires
                    0 <= i <= n,
            ;
            assert(abs(gap as int * i) == abs(gap as int) * i) by (nonlinear_arith)
                requires
                    0 <= i,
            ;
            lemma_sum_part(widths@, 0, i + 1);
            assert(widths@.take(i + 1).drop_last() =~= widths@.take(i as int));
            assert(widths@.subrange(0, i + 1) == widths@.take(i + 1));
            assert(abs(gap as int) * (i + 1) <= abs(gap as int) * n) by (nonlinear_arith)
                requires
                    0 <= i + 1 <= n,
            ;
            assert(abs(gap as int * (i + 1)) == abs(gap as int) * (i + 1)) by (nonlinear_arith)
                requires
                    0 <= i,
            ;
            assert(gap as int * (i + 1) == gap as int * i + gap) by (nonlinear_arith);
        }
        r.push(x as i32);
        x = x + widths[i] as i64 + gap as i64;
        i = i + 1;
    }
    r
}

/// The size of the pill around a text of size `tw` by `th`, with `pad` space
/// on each side.
pub fn pill_size(tw: i32, th: i32, pad: (i32, i32)) -> (r: (i32, i32))
    requires
        fits_i32(pad.0 * 2),
        fits_i32(pad.1 * 2),
        fits_i32(tw + pad.0 * 2),
        fits_i32(th + pad.1 * 2),
    ensures
        r == ((tw + pad.0 * 2) as i32, (th + pad.1 * 2) as i32),
{
    (tw + pad.0 * 2, th + pad.1 * 2)
}

/// `a / 2` rounded toward zero, as `i32` division does it.
pub open spec fn half(a: int) -> int {
    if a >= 0 {
        a / 2
    } else {
        -((-a) / 2)
    }
}

fn half_exec(a: i32) -> (r: i32)
    ensures
        r == half(a as int),
{
    if a >= 0 {
        a / 2
    } else {
        let m = -(a as i64);
        -((m / 2) as i32)
    }
}

/// The inputs of the placement of the key-stroke window: the screen `sw` by
/// `sh`, the row `total_w` by `max_h`, the margin from the screen's top or
/// bottom and, for a placement at given coordinates, the virtual screen.
pub open spec fn place_ok(
    key_pos: i32,
    sw: i32,
    sh: i32,
    total_w: i32,
    max_h: i32,
    margin: i32,
    vs: Screen,
) -> bool {
    &&& fits_i32(sw - total_w)
    &&& fits_i32(sh - margin)
    &&& fits_i32(sh - margin - max_h)
    &&& (key_pos == 2 || key_pos == 5) ==> fits_i32(sw - total_w - 24)
    &&& key_pos == 6 ==> fits_i32(sh - max_h)
    &&& key_pos == 7 ==> clamp_ok(total_w, max_h, vs)
}

/// The row's geometry: a single pill is as wide as itself and each further
/// pill adds the gap and its own width; each pill starts where the one before
/// it ends plus the gap, the first at 0; the row is as tall as its tallest
/// pill; and a screen `sw` wide leaves the row 24 pixels on each side, but
/// never less than 100.
pub proof fn lemma_row_geometry(ws: Seq<i32>, w: i32, gap: int, i: int, sw: int)
    ensures
        row_width(seq![w], gap) == w,
        ws.len() > 0 ==> row_width(ws.push(w), gap) == row_width(ws, gap) + gap + w,
        pill_start(ws, gap, 0) == 0,
        0 <= i < ws.len() ==> pill_start(ws, gap, i + 1) == pill_start(ws, gap, i) + ws[i] + gap,
        ws.len() > 0 ==> (exists|j: int| 0 <= j < ws.len() && max_of(ws) == ws[j]),
        forall|j: int| 0 <= j < ws.len() ==> ws[j] <= max_of(ws),
        row_room(sw) >= 100,
        row_room(sw) + 48 >= sw,
        sw >= 148 ==> row_room(sw) + 48 == sw,
    decreases ws.len(),
{
    assert(seq![w].drop_last() =~= Seq::<i32>::empty());
    assert(seq![w].last() == w);
    assert(sum(Seq::<i32>::empty()) == 0);
    assert(sum(seq![w]) == sum(seq![w].drop_last()) + seq![w].last());
    assert(sum(seq![w]) == w);
    assert(gap * (seq![w].len() - 1) == 0);
    assert(ws.push(w).drop_last() =~= ws);
    assert(sum(ws.push(w)) == sum(ws) + w);
    let n = ws.len() as int;
    assert(gap * n == gap * (n - 1) + gap) by (nonlinear_arith);
    assert(ws.take(0) =~= Seq::<i32>::empty());
    if 0 <= i < ws.len() {
        assert(ws.take(i + 1).drop_last() =~= ws.take(i));
        assert(gap * (i + 1) == gap * i + gap) by (nonlinear_arith);
    }
    if ws.len() > 0 {
        lemma_row_geometry(ws.drop_last(), w, gap, -1, sw);
        let m = max_of(ws.drop_last());
        if ws.len() == 1 {
            assert(max_of(ws) == ws[0]);
        } else {
            let j0 = choose|j: int| 0 <= j < ws.drop_last().len() && m == ws.drop_last()[j];
            if ws.last() > m {
                assert(max_of(ws) == ws[ws.len() - 1]);
            } else {
                assert(max_of(ws) == ws[j0]);
            }
        }
        assert forall|j: int| 0 <= j < ws.len() implies ws[j] <= max_of(ws) by {
            if j < ws.len() - 1 {
                assert(ws[j] == ws.drop_last()[j]);
            }
        }
    }
}

/// Where the key-stroke window goes: 0 (and any other value) bottom centre,
/// 1 bottom left, 2 bottom right, 3 top centre, 4 top left, 5 top right,
/// 6 centre, 7 at `(key_x, key_y)` kept on the virtual screen.
pub open spec fn key_place(
    key_pos: i32,
    sw: i32,
    sh: i32,
    total_w: i32,
    max_h: i32,
    margin: i32,
    key_x: i32,
    key_y: i32,
    vs: Screen,
) -> (int, int) {
    let side = 24;
    let cxp = half(sw - total_w);
    let topy = margin as int;
    let boty = sh - margin - max_h;
    if key_pos == 1 {
        (side, boty)
    } else if key_pos == 2 {
        (sw - total_w - side, boty)
    } else if key_pos == 3 {
        (cxp, topy)
    } else if key_pos == 4 {
        (side, topy)
    } else if key_pos == 5 {
        (sw - total_w - side, topy)
    } else if key_pos == 6 {
        (cxp, half(sh - max_h))
    } else if key_pos == 7 {
        (
            clamp(key_x as int, vs.left as int, vs.left + vs.width - total_w),
            clamp(key_y as int, vs.top as int, vs.top + vs.height - max_h),
        )
    } else {
        (cxp, boty)
    }
}

/// At the chosen coordinates (choice 7) the row stays where it was put when
/// all of it lies on the virtual screen `vs`; otherwise it is moved onto the
/// virtual screen as far as it fits there.
pub proof fn lemma_place_at_coords(
    sw: i32,
    sh: i32,
    total_w: i32,
    max_h: i32,
    margin: i32,
    key_x: i32,
    key_y: i32,
    vs: Screen,
)
    ensures
        ({
            let p = key_place(7, sw, sh, total_w, max_h, margin, key_x, key_y, vs);
            &&& (vs.left <= key_x && key_x + total_w <= vs.left + vs.width) ==> p.0 == key_x
            &&& (vs.top <= key_y && key_y + max_h <= vs.top + vs.height) ==> p.1 == key_y
            &&& total_w <= vs.width ==> vs.left <= p.0 && p.0 + total_w <= vs.left + vs.width
            &&& max_h <= vs.height ==> vs.top <= p.1 && p.1 + max_h <= vs.top + vs.height
        }),
{
}

/// The named places on the primary screen of size `sw` by `sh`: the left ones
/// 24 pixels in from the left edge, the right ones 24 in from the right edge,
/// the centred ones half way (to within a pixel), the top ones `margin` below
/// the top and the bottom ones `margin` above the bottom; any choice other
/// than 1 to 7 is bottom centre.
pub proof fn lemma_named_places(
    key_pos: i32,
    sw: i32,
    sh: i32,
    total_w: i32,
    max_h: i32,
    margin: i32,
    key_x: i32,
    key_y: i32,
    vs: Screen,
)
    ensures
        ({
            let p = key_place(key_pos, sw, sh, total_w, max_h, margin, key_x, key_y, vs);
            &&& (key_pos == 1 || key_pos == 4) ==> p.0 == 24
            &&& (key_pos == 2 || key_pos == 5) ==> p.0 + total_w + 24 == sw
            &&& (key_pos == 3 || key_pos == 6 || !(1 <= key_pos <= 7)) ==> sw - total_w - 1 <= 2
                * p.0 <= sw - total_w + 1
            &&& (key_pos == 3 || key_pos == 4 || key_pos == 5) ==> p.1 == margin
            &&& (key_pos == 1 || key_pos == 2 || !(1 <= key_pos <= 7)) ==> p.1 + max_h + margin
                == sh
            &&& key_pos == 6 ==> sh - max_h - 1 <= 2 * p.1 <= sh - max_h + 1
        }),
{
}

/// Whether the key-stroke window can be placed, in the sense of `place_ok`.
pub fn place_fits(
    key_pos: i32,
    sw: i32,
    sh: i32,
    total_w: i32,
    max_h: i32,
    margin: i32,
    vs: Screen,
) -> (r: bool)
    ensures
        r == place_ok(key_pos, sw, sh, total_w, max_h, margin, vs),
{
    let (sw, sh, tw, mh, m) = (sw as i64, sh as i64, total_w as i64, max_h as i64, margin as i64);
    fits(sw - tw) && fits(sh - m) && fits(sh - m - mh) && (!(key_pos == 2 || key_pos == 5) || fits(
        sw - tw - 24,
    )) && (key_pos != 6 || fits(sh - mh)) && (key_pos != 7 || clamp_fits(total_w, max_h, vs))
}

/// The top-left corner of the key-stroke window.
pub fn key_window_pos(
    key_pos: i32,
    sw: i32,
    sh: i32,
    total_w: i32,
    max_h: i32,
    margin: i32,
    key_x: i32,
    key_y: i32,
    vs: Screen,
) -> (r: (i32, i32))
    requires
        place_ok(key_pos, sw, sh, total_w, max_h, margin, vs),
    ensures
        (r.0 as int, r.1 as int) == key_place(
            key_pos,
            sw,
            sh,
            total_w,
            max_h,
            margin,
            key_x,
            key_y,
            vs,
        ),
{
    let side: i32 = 24;
    let cxp = half_exec(sw - total_w);
    let topy = margin;
    let boty = sh - margin - max_h;
    if key_pos == 1 {
        (side, boty)
    } else if key_pos == 2 {
        (sw - total_w - side, boty)
    } else if key_pos == 3 {
        (cxp, topy)
    } else if key_pos == 4 {
        (side, topy)
    } else if key_pos == 5 {
        (sw - total_w - side, topy)
    } else if key_pos == 6 {
        (cxp, half_exec(sh - max_h))
    } else if key_pos == 7 {
        clamp_pos(key_x, key_y, total_w, max_h, vs)
    } else {
        (cxp, boty)
    }
}

// ------------------------------------------------------------------
// The remembered position of the settings window
// ------------------------------------------------------------------

/// The position a window-position text gives: two `i32` numbers, each
/// trimmed, on either side of the first comma of the trimmed text.
pub open spec fn win_pos_of(s: Seq<char>) -> Option<(i32, i32)> {
    match split_once(trim(s), ',') {
        None => None,
        Some((a, b)) => match (
            parse_int(trim(a), i32::MIN as int, i32::MAX as int),
            parse_int(trim(b), i32::MIN as int, i32::MAX as int),
        ) {
            (Some(x), Some(y)) => Some((x as i32, y as i32)),
            _ => None,
        },
    }
}

/// Reads a remembered window position.
pub fn parse_win_pos(s: &str) -> (r: Option<(i32, i32)>)
    ensures
        r == win_pos_of(s@),
{
    let v = chars_of(s);
    let n = v.len();
    assert(v@.subrange(0, n as int) =~= s@);
    let (a, b) = trim_range(&v, 0, n);
    let ghost t = v@.subrange(a as int, b as int);
    match find_char(&v, a, b, ',') {
        None => {
            proof {
                crate::text::lemma_split_once_of_find(t, ',', None);
            }
            None
        },
        Some(c) => {
            proof {
                crate::text::lemma_split_once_of_find(t, ',', Some((c - a) as int));
            }
            assert(t.take(c - a) =~= v@.subrange(a as int, c as int));
            assert(t.skip(c - a + 1) =~= v@.subrange(c + 1, b as int));
            let (xa, xb) = trim_range(&v, a, c);
            let (ya, yb) = trim_range(&v, c + 1, b);
            let x = parse_i32(&v, xa, xb);
            let y = parse_i32(&v, ya, yb);
            match (x, y) {
                (Some(x), Some(y)) => Some((x, y)),
                _ => None,
            }
        },
    }
}

/// The text of a window position: `x,y`.
pub open spec fn win_pos_text(x: i32, y: i32) -> Seq<char> {
    int_text(x as int) + seq![','] + int_text(y as int)
}

/// Writes a window position as `parse_win_pos` reads it.
pub fn format_win_pos(x: i32, y: i32) -> (r: String)
    ensures
        r@ == win_pos_text(x, y),
{
    let mut v: Vec<char> = Vec::new();
    push_int(&mut v, x as i64);
    v.push(',');
    push_int(&mut v, y as i64);
    let n = v.len();
    assert(v@.subrange(0, n as int) =~= win_pos_text(x, y));
    string_of(&v, 0, n)
}

/// A written window position reads back as the same position.
pub proof fn lemma_win_pos_round_trip(x: i32, y: i32)
    ensures
        win_pos_of(win_pos_text(x, y)) == Some((x, y)),
{
    let a = int_text(x as int);
    let b = int_text(y as int);
    crate::text::lemma_parse_int_text(x as int, i32::MIN as int, i32::MAX as int);
    crate::text::lemma_parse_int_text(y as int, i32::MIN as int, i32::MAX as int);
    let t = win_pos_text(x, y);
    assert(!crate::text::is_space(t[0])) by {
        assert(t[0] == a[0]);
    }
    assert(!crate::text::is_space(t.last())) by {
        assert(t.last() == b.last());
        assert(b.last() == b[b.len() - 1]);
    }
    crate::text::lemma_trim_fixed(t);
    let i = a.len() as int;
    assert(crate::text::first_at(t, ',', i)) by {
        assert forall|j: int| 0 <= j < t.take(i).len() implies #[trigger] t.take(i)[j] != ',' by {
            assert(t.take(i)[j] == a[j]);
        }
    }
    crate::text::lemma_split_once_at(t, ',', i);
    assert(t.take(i) =~= a);
    assert(t.skip(i + 1) =~= b);
    assert(!crate::text::is_space(a.last())) by {
        assert(a.last() == a[a.len() - 1]);
    }
    assert(!crate::text::is_space(b[0]));
    crate::text::lemma_trim_fixed(a);
    crate::text::lemma_trim_fixed(b);
}

} // verus!
