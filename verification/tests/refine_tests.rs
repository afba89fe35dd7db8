use par_fractal::refine::{center_out_order, grid_side_for_tiles, tile_rect, RefineState, MAX_GRID_SIDE};
use std::collections::HashSet;

#[test]
fn center_out_starts_at_center() {
    let order = center_out_order(3);
    assert_eq!(order.len(), 9);
    assert_eq!(order[0], 4, "3×3 center tile (idx 4) must be first");
    let last_four: HashSet<u32> = order[5..].iter().copied().collect();
    assert_eq!(last_four, [0, 2, 6, 8].into_iter().collect(),);
}

#[test]
fn center_out_even_grid_starts_near_center() {
    let order = center_out_order(4);
    assert_eq!(order.len(), 16);
    let first_four: HashSet<u32> = order[0..4].iter().copied().collect();
    assert_eq!(first_four, [5, 6, 9, 10].into_iter().collect(),);
    let last_four: HashSet<u32> = order[12..].iter().copied().collect();
    assert_eq!(last_four, [0, 3, 12, 15].into_iter().collect(),);
}

#[test]
fn center_out_visits_every_tile_exactly_once() {
    for &side in &[1u32, 2, 3, 4, 5, 8] {
        let order = center_out_order(side);
        let n = (side * side) as usize;
        assert_eq!(order.len(), n, "side {side} should yield {n} tiles");
        let mut sorted = order.clone();
        sorted.sort();
        let expected: Vec<u32> = (0..n as u32).collect();
        assert_eq!(sorted, expected, "side {side}: missing or duplicate tiles");
    }
}

#[test]
fn tile_rect_is_always_valid_and_in_bounds() {
    for &side in &[1u32, 2, 3, 4, 5, 8] {
        for &(w, h) in &[(1920u32, 1080), (256, 256), (100, 100), (7, 13), (1, 1)] {
            for idx in 0..side * side {
                let [x, y, tw, th] = tile_rect(idx, side, w, h);
                assert!(tw >= 1, "side {side} idx {idx} ({w}x{h}): empty width");
                assert!(th >= 1, "side {side} idx {idx} ({w}x{h}): empty height");
                assert!(x + tw <= w, "side {side} idx {idx} ({w}x{h}): x{x}+w{tw} > {w}",);
                assert!(y + th <= h, "side {side} idx {idx} ({w}x{h}): y{y}+h{th} > {h}",);
            }
        }
    }
}

#[test]
fn tile_rect_covers_surface_without_gaps() {
    for &side in &[1u32, 2, 3, 4, 5, 8] {
        for &(w, h) in &[(1920u32, 1080), (256, 256), (100, 100)] {
            let mut xs: Vec<u32> = (0..side).map(|c| tile_rect(c, side, w, h)[0]).collect();
            xs.sort();
            assert_eq!(xs[0], 0, "side {side} ({w}x{h}): first column doesn't start at x=0");
            let last_end = tile_rect(side - 1, side, w, h);
            assert_eq!(last_end[0] + last_end[2], w, "side {side} ({w}x{h}): last column doesn't reach x={w}",);
            for c in 0..side - 1 {
                let cur = tile_rect(c, side, w, h);
                let nxt = tile_rect(c + 1, side, w, h);
                assert_eq!(cur[0] + cur[2], nxt[0], "side {side} ({w}x{h}): gap/overlap between cols {c} and {}", c + 1);
            }
            let last_row = tile_rect((side - 1) * side, side, w, h);
            assert_eq!(last_row[1] + last_row[3], h, "side {side} ({w}x{h}): last row doesn't reach y={h}");
        }
    }
}

#[test]
fn tile_rect_single_tile_is_full_surface() {
    let [x, y, w, h] = tile_rect(0, 1, 1920, 1080);
    assert_eq!([x, y, w, h], [0, 0, 1920, 1080]);
}

#[test]
fn center_out_order_of_empty_grid_is_empty() {
    assert!(center_out_order(0).is_empty());
}

#[test]
fn center_out_order_5x5_ring_by_ring() {
    let order = center_out_order(5);
    assert_eq!(order[0], 12);
    // The four edge neighbours of the center come next, by index.
    assert_eq!(&order[1..5], &[7, 11, 13, 17]);
    // Then the four diagonal neighbours.
    assert_eq!(&order[5..9], &[6, 8, 16, 18]);
}

#[test]
fn tile_rect_on_surface_smaller_than_grid_stays_valid() {
    // 3-pixel-wide surface split into 8 columns: every column is one
    // pixel and the spans never leave a gap.
    let mut prev_end = 0;
    for c in 0..8 {
        let [x, _, w, _] = tile_rect(c, 8, 3, 3);
        assert_eq!(w, 1);
        assert!(x <= prev_end);
        prev_end = x + w;
    }
    assert_eq!(prev_end, 3);
}

#[test]
fn tile_rect_zero_sized_surface_is_one_pixel() {
    assert_eq!(tile_rect(0, 0, 0, 0), [0, 0, 1, 1]);
}

#[test]
fn tile_rect_exact_values_for_uneven_split() {
    // 100 px in 3 columns: 0..33, 33..66, 66..100.
    assert_eq!(tile_rect(0, 3, 100, 100), [0, 0, 33, 33]);
    assert_eq!(tile_rect(1, 3, 100, 100), [33, 0, 33, 33]);
    assert_eq!(tile_rect(2, 3, 100, 100), [66, 0, 34, 33]);
    assert_eq!(tile_rect(8, 3, 100, 100), [66, 66, 34, 34]);
}

#[test]
fn refine_state_starts_at_center() {
    let s = RefineState::new(3);
    assert_eq!(s.total(), 9);
    assert_eq!(s.next, 0);
    assert_eq!(s.order[0], 4);
    assert_eq!(s.grid_side, 3);
    assert_eq!(MAX_GRID_SIDE, 8);
}

#[test]
fn grid_side_is_the_smallest_square_that_fits() {
    assert_eq!(grid_side_for_tiles(0), 1);
    assert_eq!(grid_side_for_tiles(1), 1);
    assert_eq!(grid_side_for_tiles(2), 2);
    assert_eq!(grid_side_for_tiles(4), 2);
    assert_eq!(grid_side_for_tiles(5), 3);
    assert_eq!(grid_side_for_tiles(63), 8);
    assert_eq!(grid_side_for_tiles(64), 8);
    assert_eq!(grid_side_for_tiles(1000), MAX_GRID_SIDE);
}
