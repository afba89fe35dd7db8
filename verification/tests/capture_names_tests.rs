use par_fractal::capture_names::{hires_file_name, screenshot_file_name};
use par_fractal::tools::{parse_size, parse_u32, push_decimal};
use par_fractal::types::FractalType;

#[test]
fn screenshot_names_carry_type_and_timestamp() {
    assert_eq!(screenshot_file_name(FractalType::Mandelbrot2D, "20240101_120000"), "mandelbrot_20240101_120000.png");
    assert_eq!(
        screenshot_file_name(FractalType::HybridMandelbulbJulia3D, "20240101_120000"),
        "hybrid_bulb_julia_20240101_120000.png"
    );
}

#[test]
fn hires_names_carry_the_size() {
    assert_eq!(
        hires_file_name(FractalType::BurningShip2D, 3840, 2160, "20240101_120000"),
        "burning_ship_3840x2160_20240101_120000.png"
    );
    assert_eq!(hires_file_name(FractalType::Julia2D, 0, 7, "t"), "julia_0x7_t.png");
}

#[test]
fn decimal_forms_read_back() {
    for n in [0u32, 1, 9, 10, 99, 100, 65535, 4_000_000_000, u32::MAX] {
        let mut s = String::new();
        push_decimal(&mut s, n);
        assert_eq!(s, n.to_string());
        assert_eq!(parse_u32(&s), Some(n));
    }
    let mut s = String::from("size ");
    push_decimal(&mut s, 42);
    assert_eq!(s, "size 42");
}

#[test]
fn sizes_read_back() {
    for (w, h) in [(1u32, 1u32), (256, 256), (3840, 2160), (u32::MAX, 1)] {
        assert_eq!(parse_size(&format!("{}x{}", w, h)), Some((w, h)));
    }
}
