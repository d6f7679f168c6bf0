//! The rendered picture: one 8-bit colour per pixel, laid out row by row.

use crate::pixels::{blank_rgb8, image_height, image_width, is_rgb8, pixel_of, write_pixel};
use vstd::prelude::*;

verus! {

/// A pixel as stored in the output: its colour channels, alpha made opaque.
pub open spec fn opaque(p: (u8, u8, u8, u8)) -> (u8, u8, u8, u8) {
    (p.0, p.1, p.2, 255u8)
}

/// Position of pixel `(x, y)` in a row-major sequence of rows `width` long.
pub open spec fn raster_index(width: u32, x: u32, y: u32) -> int {
    y * width + x
}

proof fn lemma_index_fits(width: u32, height: u32, x: u32, y: u32)
    requires
        x < width,
        y < height,
    ensures
        0 <= raster_index(width, x, y) < width * height,
{
    assert(y * width + x < width * height) by (nonlinear_arith)
        requires
            x < width,
            y < height,
    ;
}

/// Builds an RGB image `width` by `height` from row-major pixels: the pixel
/// at column `x`, row `y` is `pixels[y * width + x]`, stored with its alpha
/// dropped so that it reads back fully opaque.
pub fn raster_image(width: u32, height: u32, pixels: &Vec<(u8, u8, u8, u8)>) -> (r:
    image::DynamicImage)
    requires
        pixels.len() == width * height,
        3 * width * height <= usize::MAX,
    ensures
        is_rgb8(r),
        image_width(r) == width,
        image_height(r) == height,
        forall|x: u32, y: u32|
            x < width && y < height ==> pixel_of(r, x, y) == opaque(
                pixels@[raster_index(width, x, y)],
            ),
{
    let mut img = blank_rgb8(width, height);
    let mut y: u32 = 0;
    while y < height
        invariant
            y <= height,
            pixels.len() == width * height,
            is_rgb8(img),
            image_width(img) == width,
            image_height(img) == height,
            forall|i: u32, j: u32|
                i < width && j < height ==> pixel_of(img, i, j) == if j < y {
                    opaque(pixels@[raster_index(width, i, j)])
                } else {
                    (0u8, 0u8, 0u8, 255u8)
                },
        decreases height - y,
    {
        let mut x: u32 = 0;
        while x < width
            invariant
                x <= width,
                y < height,
                pixels.len() == width * height,
                is_rgb8(img),
                image_width(img) == width,
                image_height(img) == height,
                forall|i: u32, j: u32|
                    i < width && j < height ==> pixel_of(img, i, j) == if j < y || (j == y && i
                        < x) {
                        opaque(pixels@[raster_index(width, i, j)])
                    } else {
                        (0u8, 0u8, 0u8, 255u8)
                    },
            decreases width - x,
        {
            proof {
                lemma_index_fits(width, height, x, y);
            }
            let k: usize = y as usize * width as usize + x as usize;
            let p = pixels[k];
            write_pixel(&mut img, x, y, p);
            x = x + 1;
        }
        y = y + 1;
    }
    img
}

} // verus!
