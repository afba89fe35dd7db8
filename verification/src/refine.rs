//! Tile-progressive refinement: the square tile grid that splits an
//! expensive 2D frame into scissor rectangles, and the center-out order in
//! which the tiles are rasterized.

use vstd::prelude::*;
use vstd::arithmetic::div_mod::{
    lemma_div_is_ordered, lemma_div_multiples_vanish, lemma_div_plus_one, lemma_multiply_divide_lt,
    lemma_fundamental_div_mod, lemma_mod_bound,
};
use vstd::arithmetic::mul::{lemma_mul_inequality, lemma_mul_strict_inequality, lemma_mul_is_distributive_add_other_way};

verus! {

/// Maximum tiles along one side of the refinement grid (up to 64 tiles).
pub const MAX_GRID_SIDE: u32 = 8;

/// Side of the refinement grid for a frame that needs `tiles_needed` tiles
/// to fit the per-tile budget: the smallest square grid with at least that
/// many tiles, clamped to `1..=MAX_GRID_SIDE`.
pub fn grid_side_for_tiles(tiles_needed: u32) -> (side: u32)
    ensures
        1 <= side <= MAX_GRID_SIDE,
        side < MAX_GRID_SIDE ==> side * side >= tiles_needed,
        forall|s: int| 1 <= s < side ==> #[trigger] (s * s) < tiles_needed,
{
    let mut side: u32 = 1;
    while side < MAX_GRID_SIDE && side * side < tiles_needed
        invariant
            1 <= side <= MAX_GRID_SIDE,
            side * side <= 64,
            forall|s: int| 1 <= s < side ==> #[trigger] (s * s) < tiles_needed,
        decreases MAX_GRID_SIDE - side,
    {
        assert forall|s: int| 1 <= s < side + 1 implies #[trigger] (s * s) < tiles_needed by {
            if s < side {
            } else {
                assert(s == side);
            }
        }
        side = side + 1;
        assert(side * side <= 64) by (nonlinear_arith)
            requires
                side <= 8,
        ;
    }
    side
}

/// Squared distance, in half-tile units, from tile `t` (linear index
/// `row * n + col`) of an `n`×`n` grid to the grid's center:
/// `(2·row − (n−1))² + (2·col − (n−1))²`.
pub open spec fn dist2(n: int, t: int) -> int {
    let dr = 2 * (t / n) - (n - 1);
    let dc = 2 * (t % n) - (n - 1);
    dr * dr + dc * dc
}

/// Visit order of two tiles: nearer the center first, ties broken by the
/// smaller index.
pub open spec fn tile_before(n: int, a: int, b: int) -> bool {
    dist2(n, a) < dist2(n, b) || (dist2(n, a) == dist2(n, b) && a < b)
}

/// `s` lists every tile of an `n`×`n` grid exactly once, center-out.
pub open spec fn is_center_out_order(n: int, s: Seq<u32>) -> bool {
    &&& s.len() == n * n
    &&& forall|i: int| 0 <= i < s.len() ==> (#[trigger] s[i]) < n * n
    &&& forall|t: u32| t < n * n ==> #[trigger] s.contains(t)
    &&& forall|i: int, j: int| 0 <= i < j < s.len() ==> tile_before(n, #[trigger] s[i] as int, #[trigger] s[j] as int)
}

/// Squared center distance of tile `t`, computed exactly.
fn tile_dist2(n: u32, t: u32) -> (d: u64)
    requires
        1 <= n <= 65535,
        t < n * n,
    ensures
        d == dist2(n as int, t as int),
{
    let r = t / n;
    let c = t % n;
    proof {
        lemma_multiply_divide_lt(t as int, n as int, n as int);
        lemma_mod_bound(t as int, n as int);
    }
    let m: u64 = (n - 1) as u64;
    let r2: u64 = 2 * (r as u64);
    let c2: u64 = 2 * (c as u64);
    let ar: u64 = if r2 >= m { r2 - m } else { m - r2 };
    let ac: u64 = if c2 >= m { c2 - m } else { m - c2 };
    assert(ar <= 131070 && ac <= 131070);
    assert(ar * ar <= 131070 * 131070) by (nonlinear_arith)
        requires ar <= 131070;
    assert(ac * ac <= 131070 * 131070) by (nonlinear_arith)
        requires ac <= 131070;
    let d = ar * ar + ac * ac;
    proof {
        let dr: int = 2 * (t as int / n as int) - (n as int - 1);
        let dc: int = 2 * (t as int % n as int) - (n as int - 1);
        assert(ar as int == dr || ar as int == -dr);
        assert(ac as int == dc || ac as int == -dc);
        assert((ar as int) * (ar as int) == dr * dr) by (nonlinear_arith)
            requires ar as int == dr || ar as int == -dr;
        assert((ac as int) * (ac as int) == dc * dc) by (nonlinear_arith)
            requires ac as int == dc || ac as int == -dc;
    }
    d
}

/// Center-out tile visit order for a `grid_side`×`grid_side` grid, as
/// linear indices `row * grid_side + col`: every tile exactly once, the
/// tiles nearest the center first, ties by index.
pub fn center_out_order(grid_side: u32) -> (order: Vec<u32>)
    requires
        grid_side <= 65535,
    ensures
        is_center_out_order(grid_side as int, order@),
        grid_side % 2 == 1 ==> order@[0] == (grid_side / 2) * grid_side + grid_side / 2,
{
    let n = grid_side;
    let mut v: Vec<u32> = Vec::new();
    if n == 0 {
        return v;
    }
    assert(n * n <= 65535 * 65535) by (nonlinear_arith)
        requires n <= 65535;
    let total: u32 = n * n;
    let mut k: u32 = 0;
    while k < total
        invariant
            1 <= n <= 65535,
            total == n * n,
            k <= total,
            v@.len() == k,
            forall|i: int| 0 <= i < v@.len() ==> (#[trigger] v@[i]) < k,
            forall|t: u32| t < k ==> #[trigger] v@.contains(t),
            forall|i: int, j: int| 0 <= i < j < v@.len() ==> tile_before(n as int, #[trigger] v@[i] as int, #[trigger] v@[j] as int),
        decreases total - k,
    {
        let dk = tile_dist2(n, k);
        let mut p: usize = 0;
        while p < v.len()
            invariant
                1 <= n <= 65535,
                total == n * n,
                k < total,
                dk == dist2(n as int, k as int),
                p <= v@.len(),
                forall|i: int| 0 <= i < v@.len() ==> (#[trigger] v@[i]) < k,
                forall|i: int| 0 <= i < p ==> tile_before(n as int, #[trigger] v@[i] as int, k as int),
            ensures
                p <= v@.len(),
                forall|i: int| 0 <= i < p ==> tile_before(n as int, #[trigger] v@[i] as int, k as int),
                p < v@.len() ==> dk < dist2(n as int, v@[p as int] as int),
            decreases v@.len() - p,
        {
            let dp = tile_dist2(n, v[p]);
            if dk < dp {
                break;
            }
            p = p + 1;
        }
        let ghost old_v = v@;
        assert(p < old_v.len() ==> tile_before(n as int, k as int, old_v[p as int] as int)) by {
            if p < old_v.len() {
                assert(old_v[p as int] < k);
            }
        }
        v.insert(p, k);
        assert(v@ == old_v.insert(p as int, k));
        assert forall|i: int, j: int| 0 <= i < j < v@.len() implies tile_before(n as int, #[trigger] v@[i] as int, #[trigger] v@[j] as int) by {
            if j < p {
            } else if i < p && j == p {
            } else if i < p {
                assert(v@[j] == old_v[j - 1]);
            } else if i == p {
                assert(v@[j] == old_v[j - 1]);
                if j - 1 > p {
                    assert(tile_before(n as int, old_v[p as int] as int, old_v[j - 1] as int));
                }
            } else {
                assert(v@[i] == old_v[i - 1]);
                assert(v@[j] == old_v[j - 1]);
            }
        }
        assert forall|t: u32| t < k + 1 implies #[trigger] v@.contains(t) by {
            if t == k {
                assert(v@[p as int] == k);
            } else {
                assert(old_v.contains(t));
                let w = choose|w: int| 0 <= w < old_v.len() && old_v[w] == t;
                if w < p {
                    assert(v@[w] == t);
                } else {
                    assert(v@[w + 1] == t);
                }
            }
        }
        k = k + 1;
    }
    proof {
        if n % 2 == 1 {
            let h: int = n as int / 2;
            let c: int = h * n as int + h;
            assert(h < n);
            assert(c < n * n) by (nonlinear_arith)
                requires 0 <= h < n, c == h * n + h;
            assert((h * n as int + h) / n as int == h && (h * n as int + h) % n as int == h) by {
                lemma_fundamental_div_mod(h * n as int + h, n as int);
                vstd::arithmetic::div_mod::lemma_fundamental_div_mod_converse(h * n as int + h, n as int, h, h);
            }
            assert(2 * h == n - 1);
            assert(dist2(n as int, c) == 0);
            assert(v@.contains(c as u32));
            let w = choose|w: int| 0 <= w < v@.len() && v@[w] == c as u32;
            let f = v@[0] as int;
            let dr: int = 2 * (f / n as int) - (n as int - 1);
            let dc: int = 2 * (f % n as int) - (n as int - 1);
            assert(dist2(n as int, f) == dr * dr + dc * dc);
            assert(dr * dr >= 0 && dc * dc >= 0) by (nonlinear_arith);
            if w > 0 {
                assert(tile_before(n as int, f, c));
                assert(dr * dr + dc * dc == 0);
                assert(dr == 0 && dc == 0) by (nonlinear_arith)
                    requires dr * dr + dc * dc == 0, dr * dr >= 0, dc * dc >= 0;
                assert(f / n as int == h && f % n as int == h);
                lemma_fundamental_div_mod(f, n as int);
                assert(f == n as int * h + h);
                assert(n as int * h == h * n as int) by (nonlinear_arith);
                assert(false);
            }
        }
    }
    v
}

/// Runtime state of an in-flight tile-progressive refinement: a square
/// grid, the center-out visit order, and how far through it we are.
pub struct RefineState {
    pub grid_side: u32,
    pub order: Vec<u32>,
    pub next: usize,
}

impl RefineState {
    /// A fresh refinement of a `grid_side`×`grid_side` grid, positioned at
    /// its first (center) tile.
    pub fn new(grid_side: u32) -> (s: Self)
        requires
            grid_side <= 65535,
        ensures
            s.grid_side == grid_side,
            is_center_out_order(grid_side as int, s.order@),
            s.next == 0,
    {
        let order = center_out_order(grid_side);
        RefineState { grid_side, order, next: 0 }
    }

    /// The number of tiles in the refinement.
    pub fn total(&self) -> (n: usize)
        ensures
            n == self.order@.len(),
    {
        self.order.len()
    }
}

impl Clone for RefineState {
    fn clone(&self) -> (r: Self)
        ensures
            r.grid_side == self.grid_side,
            r.order@ == self.order@,
            r.next == self.next,
    {
        let order = self.order.clone();
        assert(order@ =~= self.order@);
        RefineState { grid_side: self.grid_side, order, next: self.next }
    }
}


/// Start of span `i` when a length `len` (at least 1) is split into `g`
/// (at least 1) floor-divided spans, clamped inside the length.
pub open spec fn span_start(i: int, g: int, len: int) -> int {
    let a = (i * len) / g;
    if a < len - 1 { a } else { len - 1 }
}

/// Exclusive end of span `i` before clamping to the length: the next floor
/// boundary, but at least one past the start.
pub open spec fn span_end(i: int, g: int, len: int) -> int {
    let b = ((i + 1) * len) / g;
    if b > span_start(i, g, len) + 1 { b } else { span_start(i, g, len) + 1 }
}

/// Length of span `i`, clamped so the span stays inside the length.
pub open spec fn span_len(i: int, g: int, len: int) -> int {
    let l = span_end(i, g, len) - span_start(i, g, len);
    if l < len - span_start(i, g, len) { l } else { len - span_start(i, g, len) }
}

pub open spec fn max1(x: int) -> int {
    if x < 1 { 1 } else { x }
}

/// The scissor rectangle `[x, y, w, h]` of tile `tile_idx` (linear
/// `row * g + col`) of a `g`×`g` grid over a `width`×`height` surface, with
/// `g`, `width` and `height` first raised to at least 1.
pub open spec fn spec_tile_rect(tile_idx: int, grid_side: int, width: int, height: int) -> Seq<int> {
    let g = max1(grid_side);
    let w = max1(width);
    let h = max1(height);
    let col = tile_idx % g;
    let row = tile_idx / g;
    seq![span_start(col, g, w), span_start(row, g, h), span_len(col, g, w), span_len(row, g, h)]
}

/// The pixel scissor rect `(x, y, w, h)` for tile `tile_idx` (linear
/// `row * grid_side + col`) of a `grid_side`×`grid_side` grid covering a
/// `width`×`height` surface. Floor-divides the surface and clamps so the
/// result is always a valid non-empty rectangle inside the surface.
pub fn tile_rect(tile_idx: u32, grid_side: u32, width: u32, height: u32) -> (r: [u32; 4])
    requires
        ((tile_idx as int % max1(grid_side as int)) + 1) * max1(width as int) <= u32::MAX,
        ((tile_idx as int / max1(grid_side as int)) + 1) * max1(height as int) <= u32::MAX,
    ensures
        r@.len() == 4,
        r@[0] as int == spec_tile_rect(tile_idx as int, grid_side as int, width as int, height as int)[0],
        r@[1] as int == spec_tile_rect(tile_idx as int, grid_side as int, width as int, height as int)[1],
        r@[2] as int == spec_tile_rect(tile_idx as int, grid_side as int, width as int, height as int)[2],
        r@[3] as int == spec_tile_rect(tile_idx as int, grid_side as int, width as int, height as int)[3],
{
    let grid_side = if grid_side < 1 { 1 } else { grid_side };
    let col = tile_idx % grid_side;
    let row = tile_idx / grid_side;
    let width = if width < 1 { 1 } else { width };
    let height = if height < 1 { 1 } else { height };
    proof {
        assert(col * width <= (col + 1) * width) by (nonlinear_arith)
            requires width >= 1;
        assert(row * height <= (row + 1) * height) by (nonlinear_arith)
            requires height >= 1;
    }
    let (x, x_end) = span(col, grid_side, width);
    let (y, y_end) = span(row, grid_side, height);
    let w = if x_end - x < width - x { x_end - x } else { width - x };
    let h = if y_end - y < height - y { y_end - y } else { height - y };
    [x, y, w, h]
}

/// Start and unclamped end of span `i` of `len` split in `g`.
fn span(i: u32, g: u32, len: u32) -> (r: (u32, u32))
    requires
        g >= 1,
        len >= 1,
        (i + 1) * len <= u32::MAX,
    ensures
        r.0 == span_start(i as int, g as int, len as int),
        r.1 == span_end(i as int, g as int, len as int),
        r.0 < len,
        r.1 > r.0,
{
    proof {
        assert(i * len <= (i + 1) * len) by (nonlinear_arith)
            requires len >= 1;
        assert(i + 1 <= (i + 1) * len) by (nonlinear_arith)
            requires len >= 1, i >= 0;
    }
    let a = (i * len) / g;
    let s = if a < len - 1 { a } else { len - 1 };
    let b = ((i + 1) * len) / g;
    let e = if b > s + 1 { b } else { s + 1 };
    (s, e)
}

/// Every tile rectangle is non-empty and lies inside the surface (with the
/// surface's sides raised to at least 1).
pub proof fn lemma_tile_rect_valid(tile_idx: u32, grid_side: u32, width: u32, height: u32)
    ensures
        ({
            let r = spec_tile_rect(tile_idx as int, grid_side as int, width as int, height as int);
            &&& r[0] >= 0 && r[1] >= 0
            &&& r[2] >= 1 && r[3] >= 1
            &&& r[0] + r[2] <= max1(width as int)
            &&& r[1] + r[3] <= max1(height as int)
        }),
{
    let g = max1(grid_side as int);
    let col = tile_idx as int % g;
    let row = tile_idx as int / g;
    lemma_mod_bound(tile_idx as int, g);
    vstd::arithmetic::div_mod::lemma_div_pos_is_pos(tile_idx as int, g);
    lemma_span_valid(col, g, max1(width as int));
    lemma_span_valid(row, g, max1(height as int));
}

proof fn lemma_span_valid(i: int, g: int, len: int)
    requires
        i >= 0,
        g >= 1,
        len >= 1,
    ensures
        0 <= span_start(i, g, len) < len,
        span_len(i, g, len) >= 1,
        span_start(i, g, len) + span_len(i, g, len) <= len,
{
    assert(i * len >= 0) by (nonlinear_arith)
        requires i >= 0, len >= 1;
    vstd::arithmetic::div_mod::lemma_div_pos_is_pos(i * len, g);
}

/// Along each axis the spans of consecutive tiles leave no gap: the first
/// starts at 0, each next one starts no later than the previous one ends,
/// and the last ends exactly at the surface edge. When the surface is at
/// least as long as the grid, consecutive spans meet exactly (no overlap).
pub proof fn lemma_spans_cover(g: int, len: int, i: int)
    requires
        g >= 1,
        len >= 1,
        0 <= i < g,
    ensures
        span_start(0, g, len) == 0,
        span_start(g - 1, g, len) + span_len(g - 1, g, len) == len,
        i + 1 < g ==> span_start(i + 1, g, len) <= span_start(i, g, len) + span_len(i, g, len),
        i + 1 < g && len >= g ==> span_start(i + 1, g, len) == span_start(i, g, len) + span_len(i, g, len),
{
    assert(0 * len == 0);
    // the last span ends at the edge
    assert(((g - 1) + 1) * len == len * g) by (nonlinear_arith);
    lemma_div_multiples_vanish(len, g);
    assert((len * g) / g == len) by {
        assert(g * len == len * g) by (nonlinear_arith);
    }
    lemma_span_valid(g - 1, g, len);
    // the floor boundary of span i lies inside the length
    assert(i * len < g * len) by (nonlinear_arith)
        requires 0 <= i < g, len >= 1;
    assert(i * len >= 0) by (nonlinear_arith)
        requires i >= 0, len >= 1;
    lemma_multiply_divide_lt(i * len, g, len);
    lemma_span_valid(i, g, len);
    if i + 1 < g {
        assert((i + 1) * len < g * len) by (nonlinear_arith)
            requires 0 <= i + 1 < g, len >= 1;
        assert((i + 1) * len >= 0) by (nonlinear_arith)
            requires i >= 0, len >= 1;
        lemma_multiply_divide_lt((i + 1) * len, g, len);
        assert((i + 1) * len == i * len + len) by (nonlinear_arith);
        if len >= g {
            lemma_div_is_ordered(i * len + g, i * len + len, g);
            lemma_div_plus_one(i * len, g);
        }
    }
}

} // verus!
