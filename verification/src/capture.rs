//! Pixel-buffer post-processing of GPU readbacks: the 256-byte aligned row
//! pitch, removal of the row padding, and the BGRA → RGBA channel swap.

use vstd::prelude::*;

verus! {

/// The row pitch of a readback: `width * 4` bytes rounded up to a multiple
/// of 256 (the copy alignment every wgpu back end requires).
pub fn padded_bytes_per_row(width: u32) -> (r: u32)
    requires
        width * 4 + 255 <= u32::MAX,
    ensures
        r % 256 == 0,
        width * 4 <= r < width * 4 + 256,
{
    let x: u32 = width * 4 + 255;
    let r = x & !255u32;
    assert(r % 256 == 0 && x - 255 <= r <= x) by (bit_vector)
        requires r == x & !255u32, x >= 255;
    assert(r & 255 == 0) by (bit_vector)
        requires r == x & !255u32;
    r
}

/// Strips the row padding from a mapped readback, yielding tightly packed
/// RGBA8 (`width * height * 4` bytes).
pub fn strip_row_padding(padded: &[u8], width: u32, height: u32, bytes_per_row: u32) -> (out: Vec<u8>)
    requires
        width * 4 <= u32::MAX,
        width * height * 4 <= u32::MAX,
        height > 0 ==> (height - 1) * bytes_per_row + width * 4 <= padded@.len(),
        height > 0 ==> (height - 1) * bytes_per_row <= u32::MAX,
    ensures
        out@.len() == height * width * 4,
        forall|r: int, c: int| 0 <= r < height && 0 <= c < width * 4 ==>
            #[trigger] out@[r * (width * 4) + c] == padded@[r * bytes_per_row + c],
{
    let row_bytes: usize = (width * 4) as usize;
    let plen = padded.len();
    assert(height * row_bytes == width * height * 4) by (nonlinear_arith)
        requires row_bytes == width * 4;
    let mut out: Vec<u8> = Vec::new();
    let mut row: u32 = 0;
    while row < height
        invariant
            plen == padded@.len(),
            height * row_bytes == width * height * 4,
            width * height * 4 <= u32::MAX,
            height > 0 ==> (height - 1) * bytes_per_row + width * 4 <= padded@.len(),
            height > 0 ==> (height - 1) * bytes_per_row <= u32::MAX,
            row_bytes == width * 4,
            row <= height,
            out@.len() == row * row_bytes,
            forall|r: int, c: int| 0 <= r < row && 0 <= c < row_bytes ==>
                #[trigger] out@[r * row_bytes + c] == padded@[r * bytes_per_row + c],
        decreases height - row,
    {
        assert(row * bytes_per_row <= (height - 1) * bytes_per_row) by (nonlinear_arith)
            requires row <= height - 1;
        let start: usize = (row * bytes_per_row) as usize;
        let mut c: usize = 0;
        let ghost base = out@.len();
        assert((row + 1) * row_bytes <= height * row_bytes) by (nonlinear_arith)
            requires row + 1 <= height;
        assert((row + 1) * row_bytes == row * row_bytes + row_bytes) by (nonlinear_arith);
        while c < row_bytes
            invariant
                plen == padded@.len(),
                row < height,
                start == row * bytes_per_row,
                start + row_bytes <= padded@.len(),
                base == row * row_bytes,
                out@.len() == base + c,
                c <= row_bytes,
                (row + 1) * row_bytes <= u32::MAX,
                forall|r: int, k: int| 0 <= r < row && 0 <= k < row_bytes ==>
                    #[trigger] out@[r * row_bytes + k] == padded@[r * bytes_per_row + k],
                forall|k: int| 0 <= k < c ==> #[trigger] out@[base + k] == padded@[start + k],
            decreases row_bytes - c,
        {
            let ghost before = out@;
            out.push(padded[start + c]);
            assert forall|r: int, k: int| 0 <= r < row && 0 <= k < row_bytes implies
                #[trigger] out@[r * row_bytes + k] == padded@[r * bytes_per_row + k] by {
                assert(r * row_bytes + k < row * row_bytes) by (nonlinear_arith)
                    requires 0 <= r < row, 0 <= k < row_bytes;
                assert(out@[r * row_bytes + k] == before[r * row_bytes + k]);
            }
            c = c + 1;
        }
        assert forall|r: int, k: int| 0 <= r < row + 1 && 0 <= k < row_bytes implies
            #[trigger] out@[r * row_bytes + k] == padded@[r * bytes_per_row + k] by {
            if r == row {
                assert(out@[base + k] == padded@[start + k]);
            }
        }
        row = row + 1;
    }
    assert(height * row_bytes == height * width * 4) by (nonlinear_arith)
        requires row_bytes == width * 4;
    out
}

/// The image after the BGRA swap: bytes 0 and 2 of every whole 4-byte
/// pixel exchanged, trailing bytes untouched.
pub open spec fn swapped(s: Seq<u8>) -> Seq<u8> {
    Seq::new(s.len(), |k: int|
        if k < (s.len() / 4) * 4 && k % 4 == 0 {
            s[k + 2]
        } else if k < (s.len() / 4) * 4 && k % 4 == 2 {
            s[k - 2]
        } else {
            s[k]
        })
}

/// Swaps the B and R channels of every RGBA pixel when the surface format
/// is BGRA; RGBA surfaces are left as they are.
pub fn swap_bgra_channels(rgba: &mut Vec<u8>, is_bgra: bool)
    ensures
        is_bgra ==> final(rgba)@ == swapped(old(rgba)@),
        !is_bgra ==> final(rgba)@ == old(rgba)@,
{
    if !is_bgra {
        return;
    }
    let n = rgba.len();
    let whole = n / 4 * 4;
    let ghost orig = rgba@;
    let mut i: usize = 0;
    while i < whole
        invariant
            n == rgba@.len(),
            orig.len() == n,
            whole == n / 4 * 4,
            whole <= n,
            i <= whole,
            i % 4 == 0,
            forall|k: int| 0 <= k < i ==> #[trigger] rgba@[k] == swapped(orig)[k],
            forall|k: int| i <= k < n ==> #[trigger] rgba@[k] == orig[k],
        decreases whole - i,
    {
        let b = rgba[i];
        let r = rgba[i + 2];
        rgba.set(i, r);
        rgba.set(i + 2, b);
        assert forall|k: int| 0 <= k < i + 4 implies #[trigger] rgba@[k] == swapped(orig)[k] by {
            if k >= i {
                assert(k % 4 == (k - i) % 4);
            }
        }
        i = i + 4;
    }
    assert(rgba@ =~= swapped(orig));
}

/// The BGRA swap pixel by pixel: of every whole pixel the first and third
/// bytes trade places and the second and fourth stay; the length is kept,
/// and swapping twice gives back the bytes it started from.
pub proof fn lemma_swap_pixels(s: Seq<u8>, p: int)
    requires
        0 <= p,
        4 * p + 4 <= s.len(),
    ensures
        swapped(s).len() == s.len(),
        swapped(s)[4 * p] == s[4 * p + 2],
        swapped(s)[4 * p + 1] == s[4 * p + 1],
        swapped(s)[4 * p + 2] == s[4 * p],
        swapped(s)[4 * p + 3] == s[4 * p + 3],
        swapped(swapped(s)) == s,
{
    assert(4 * p + 3 < (s.len() / 4) * 4);
    assert((4 * p) % 4 == 0 && (4 * p + 1) % 4 == 1 && (4 * p + 2) % 4 == 2 && (4 * p + 3) % 4 == 3);
    let t = swapped(s);
    assert forall|k: int| 0 <= k < s.len() implies #[trigger] swapped(t)[k] == s[k] by {
        if k < (s.len() / 4) * 4 && k % 4 == 0 {
            assert((k + 2) % 4 == 2 && k + 2 < (s.len() / 4) * 4);
        } else if k < (s.len() / 4) * 4 && k % 4 == 2 {
            assert((k - 2) % 4 == 0);
        }
    }
    assert(swapped(t) =~= s);
}

} // verus!
