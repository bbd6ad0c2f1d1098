use vstd::prelude::*;

use crate::data::UVec2;

verus! {

/// The slot of `pixel` in an output buffer that holds a screen's pixels row
/// by row.
pub open spec fn output_index_spec(pixel: UVec2, screen_size: UVec2) -> int {
    pixel.y * screen_size.x + pixel.x
}

/// The slot of `pixel` in an output buffer that holds the pixels of a screen
/// of `screen_size` row by row: `y * width + x`.
pub fn output_index(pixel: UVec2, screen_size: UVec2) -> (r: usize)
    requires
        pixel.x < screen_size.x,
        pixel.y < screen_size.y,
        screen_size.x * screen_size.y <= usize::MAX,
    ensures
        r == output_index_spec(pixel, screen_size),
        r < screen_size.x * screen_size.y,
{
    let (x, y) = (pixel.x as usize, pixel.y as usize);
    let (w, h) = (screen_size.x as usize, screen_size.y as usize);
    assert(y * w + x < w * h) by (nonlinear_arith)
        requires
            x < w,
            y < h,
    ;
    y * w + x
}

} // verus!
