use par_fractal::image_compare::compare_rgba_counts;

#[test]
fn identical_images_have_no_difference() {
    let a = vec![10u8, 20, 30, 255, 0, 0, 0, 255];
    assert_eq!(compare_rgba_counts(&a, &a), (0, 0));
}

#[test]
fn small_differences_count_toward_error_only() {
    let a = vec![10u8, 20, 30, 255, 0, 0, 0, 255];
    let b = vec![18u8, 20, 30, 255, 0, 3, 0, 250];
    // 8 is within tolerance; the sum is 8 + 3 + 5.
    assert_eq!(compare_rgba_counts(&a, &b), (0, 16));
}

#[test]
fn a_pixel_is_bad_once_whatever_its_channels() {
    let a = vec![0u8, 0, 0, 0, 0, 0, 0, 0, 100, 100, 100, 100];
    let b = vec![9u8, 9, 0, 0, 0, 0, 0, 0, 90, 110, 100, 100];
    // Pixel 0 differs by 9 twice, pixel 2 by 10 twice.
    assert_eq!(compare_rgba_counts(&a, &b), (2, 38));
}

#[test]
fn trailing_partial_pixel_is_ignored() {
    let a = vec![0u8, 0, 0, 0, 7];
    let b = vec![0u8, 0, 0, 0, 200];
    assert_eq!(compare_rgba_counts(&a, &b), (0, 0));
}

#[test]
fn fractions_follow_from_the_counts() {
    // Mean absolute error and bad-pixel fraction of a 2-pixel image.
    let a = vec![0u8, 0, 0, 0, 0, 0, 0, 0];
    let b = vec![255u8, 255, 255, 255, 0, 0, 0, 0];
    let (bad, sum) = compare_rgba_counts(&a, &b);
    let pixels = (a.len() / 4) as f64;
    assert_eq!(bad as f64 / pixels, 0.5);
    assert_eq!(sum as f64 / a.len() as f64, 127.5);
}
