//! Pixel comparison of two RGBA images of equal size: how many pixels
//! differ noticeably, and the total absolute channel difference. The
//! fraction of bad pixels and the mean absolute error are these counts
//! divided by the pixel and channel counts.

use vstd::prelude::*;

verus! {

/// Absolute difference of two channel values.
pub open spec fn abs_diff(x: u8, y: u8) -> int {
    if x >= y { x - y } else { y - x }
}

/// Pixel `p` is bad when one of its four channels differs by more than
/// 8 (on the 0–255 scale).
pub open spec fn pixel_bad(a: Seq<u8>, b: Seq<u8>, p: int) -> bool {
    ||| abs_diff(a[4 * p], b[4 * p]) > 8
    ||| abs_diff(a[4 * p + 1], b[4 * p + 1]) > 8
    ||| abs_diff(a[4 * p + 2], b[4 * p + 2]) > 8
    ||| abs_diff(a[4 * p + 3], b[4 * p + 3]) > 8
}

/// Number of bad pixels among the first `n`.
pub open spec fn bad_pixels(a: Seq<u8>, b: Seq<u8>, n: int) -> int
    decreases n,
{
    if n <= 0 {
        0
    } else {
        bad_pixels(a, b, n - 1) + if pixel_bad(a, b, n - 1) { 1int } else { 0int }
    }
}

/// Sum of the absolute differences of the first `n` channel values.
pub open spec fn abs_diff_sum(a: Seq<u8>, b: Seq<u8>, n: int) -> int
    decreases n,
{
    if n <= 0 {
        0
    } else {
        abs_diff_sum(a, b, n - 1) + abs_diff(a[n - 1], b[n - 1])
    }
}

fn channel_diff(x: u8, y: u8) -> (d: u64)
    ensures
        d == abs_diff(x, y),
        d <= 255,
{
    if x >= y { (x - y) as u64 } else { (y - x) as u64 }
}

/// Compares two RGBA buffers pixel by pixel (whole pixels only): the number
/// of bad pixels, and the sum of all absolute channel differences.
pub fn compare_rgba_counts(a: &[u8], b: &[u8]) -> (r: (u64, u64))
    requires
        a@.len() == b@.len(),
        a@.len() <= 0x00ff_ffff_ffff_ffff,
    ensures
        r.0 == bad_pixels(a@, b@, (a@.len() / 4) as int),
        r.1 == abs_diff_sum(a@, b@, 4 * (a@.len() / 4) as int),
{
    let n = a.len();
    let pixels = n / 4;
    let mut bad: u64 = 0;
    let mut sum: u64 = 0;
    let mut p: usize = 0;
    while p < pixels
        invariant
            n == a@.len(),
            pixels == a@.len() / 4,
            a@.len() == b@.len(),
            a@.len() <= 0x00ff_ffff_ffff_ffff,
            p <= pixels,
            bad == bad_pixels(a@, b@, p as int),
            bad <= p,
            sum == abs_diff_sum(a@, b@, 4 * p),
            sum <= 1020 * p,
        decreases pixels - p,
    {
        assert(4 * p + 4 <= a@.len()) by (nonlinear_arith)
            requires
                p < pixels,
                pixels == a@.len() / 4,
        ;
        let i = 4 * p;
        let d0 = channel_diff(a[i], b[i]);
        let d1 = channel_diff(a[i + 1], b[i + 1]);
        let d2 = channel_diff(a[i + 2], b[i + 2]);
        let d3 = channel_diff(a[i + 3], b[i + 3]);
        assert(abs_diff_sum(a@, b@, i + 1) == abs_diff_sum(a@, b@, i as int) + d0);
        assert(abs_diff_sum(a@, b@, i + 2) == abs_diff_sum(a@, b@, i + 1) + d1);
        assert(abs_diff_sum(a@, b@, i + 3) == abs_diff_sum(a@, b@, i + 2) + d2);
        assert(abs_diff_sum(a@, b@, i + 4) == abs_diff_sum(a@, b@, i + 3) + d3);
        sum = sum + d0 + d1 + d2 + d3;
        if d0 > 8 || d1 > 8 || d2 > 8 || d3 > 8 {
            bad = bad + 1;
        }
        p = p + 1;
    }
    (bad, sum)
}

/// Whether channel value `x` differs from `y` by more than 8.
pub open spec fn far_apart(x: u8, y: u8) -> bool {
    x as int - y as int > 8 || y as int - x as int > 8
}

/// The bad-pixel count grows by one exactly at each pixel with a channel
/// (red, green, blue or alpha, each on its own) more than 8 apart, and not
/// at a pixel whose four channels are all within 8.
pub proof fn lemma_bad_pixel_channels(a: Seq<u8>, b: Seq<u8>, p: int)
    requires
        0 <= p,
        4 * p + 4 <= a.len(),
        4 * p + 4 <= b.len(),
    ensures
        far_apart(a[4 * p], b[4 * p]) ==> bad_pixels(a, b, p + 1) == bad_pixels(a, b, p) + 1,
        far_apart(a[4 * p + 1], b[4 * p + 1]) ==> bad_pixels(a, b, p + 1) == bad_pixels(a, b, p) + 1,
        far_apart(a[4 * p + 2], b[4 * p + 2]) ==> bad_pixels(a, b, p + 1) == bad_pixels(a, b, p) + 1,
        far_apart(a[4 * p + 3], b[4 * p + 3]) ==> bad_pixels(a, b, p + 1) == bad_pixels(a, b, p) + 1,
        (!far_apart(a[4 * p], b[4 * p]) && !far_apart(a[4 * p + 1], b[4 * p + 1]) && !far_apart(
            a[4 * p + 2],
            b[4 * p + 2],
        ) && !far_apart(a[4 * p + 3], b[4 * p + 3])) ==> bad_pixels(a, b, p + 1) == bad_pixels(a, b, p),
        bad_pixels(a, b, 0) == 0,
{
}

/// The error sum grows at each channel by its distance, never shrinks, and
/// the comparison is symmetric: swapping the images changes neither count.
pub proof fn lemma_compare_counts(a: Seq<u8>, b: Seq<u8>, n: int)
    requires
        0 <= n,
        4 * n <= a.len(),
        4 * n <= b.len(),
    ensures
        bad_pixels(a, b, n) == bad_pixels(b, a, n),
        abs_diff_sum(a, b, 4 * n) == abs_diff_sum(b, a, 4 * n),
        0 <= bad_pixels(a, b, n) <= n,
        abs_diff_sum(a, a, 4 * n) == 0,
        bad_pixels(a, a, n) == 0,
        forall|k: int| 0 <= k < 4 * n ==> abs_diff_sum(a, b, k + 1) == abs_diff_sum(a, b, k) + (if a[k] >= b[k] {
            a[k] - b[k]
        } else {
            b[k] - a[k]
        }),
    decreases n,
{
    lemma_sum_symmetric(a, b, 4 * n);
    if n > 0 {
        lemma_compare_counts(a, b, n - 1);
    }
}

proof fn lemma_sum_symmetric(a: Seq<u8>, b: Seq<u8>, k: int)
    requires
        0 <= k <= a.len(),
        k <= b.len(),
    ensures
        abs_diff_sum(a, b, k) == abs_diff_sum(b, a, k),
        abs_diff_sum(a, a, k) == 0,
    decreases k,
{
    if k > 0 {
        lemma_sum_symmetric(a, b, k - 1);
    }
}

} // verus!
