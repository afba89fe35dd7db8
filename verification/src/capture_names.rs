//! Names of the image files captures are saved under: the fractal type's
//! file-name-safe name, the size of a high-resolution render, and a
//! timestamp supplied by the caller.

use vstd::prelude::*;
use crate::text::owned;
use crate::tools::{decimal, push_decimal};
use crate::types::FractalType;

verus! {

/// File name of a screenshot: `<type>_<timestamp>.png`, the type by its
/// file-name-safe name.
pub fn screenshot_file_name(fractal_type: FractalType, timestamp: &str) -> (r: String)
    ensures
        r@ == fractal_type.spec_filename_safe_name() + "_"@ + timestamp@ + ".png"@,
{
    let mut r = owned(fractal_type.filename_safe_name());
    r.append("_");
    r.append(timestamp);
    r.append(".png");
    r
}

/// File name of a high-resolution render:
/// `<type>_<width>x<height>_<timestamp>.png`.
pub fn hires_file_name(fractal_type: FractalType, width: u32, height: u32, timestamp: &str) -> (r: String)
    ensures
        r@ == fractal_type.spec_filename_safe_name() + "_"@ + decimal(width as nat) + "x"@ + decimal(
            height as nat,
        ) + "_"@ + timestamp@ + ".png"@,
{
    let mut r = owned(fractal_type.filename_safe_name());
    r.append("_");
    push_decimal(&mut r, width);
    r.append("x");
    push_decimal(&mut r, height);
    r.append("_");
    r.append(timestamp);
    r.append(".png");
    r
}

} // verus!
