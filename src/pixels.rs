//! The `image` crate's `DynamicImage`, as the library sees it: a grid of
//! pixels read and written as 8-bit RGBA.

use image::GenericImage;
use image::GenericImageView;
use vstd::prelude::*;

verus! {

#[verifier::external_type_specification]
#[verifier::external_body]
pub struct ExDynamicImage(image::DynamicImage);

/// Width in pixels, as `DynamicImage::width` reports it.
pub uninterp spec fn image_width(img: image::DynamicImage) -> u32;

/// Height in pixels, as `DynamicImage::height` reports it.
pub uninterp spec fn image_height(img: image::DynamicImage) -> u32;

/// The pixel at column `x`, row `y`, converted to 8-bit RGBA, as
/// `GenericImageView::get_pixel` returns it.
pub uninterp spec fn pixel_of(img: image::DynamicImage, x: u32, y: u32) -> (u8, u8, u8, u8);

/// Whether the image stores 8-bit RGB samples (the `ImageRgb8` variant).
pub uninterp spec fn is_rgb8(img: image::DynamicImage) -> bool;

/// Whether `(x, y)` lies inside the image.
pub open spec fn in_bounds(img: image::DynamicImage, x: u32, y: u32) -> bool {
    x < image_width(img) && y < image_height(img)
}

/// Relies on `DynamicImage::width`.
#[verifier::external_body]
pub(crate) fn width_of(img: &image::DynamicImage) -> (r: u32)
    ensures
        r == image_width(*img),
{
    img.width()
}

/// Relies on `DynamicImage::height`.
#[verifier::external_body]
pub(crate) fn height_of(img: &image::DynamicImage) -> (r: u32)
    ensures
        r == image_height(*img),
{
    img.height()
}

/// Relies on `GenericImageView::get_pixel` for `DynamicImage`: the pixel at
/// `(x, y)` converted to `Rgba<u8>`; it panics outside the image.
#[verifier::external_body]
pub(crate) fn read_pixel(img: &image::DynamicImage, x: u32, y: u32) -> (r: (u8, u8, u8, u8))
    requires
        in_bounds(*img, x, y),
    ensures
        r == pixel_of(*img, x, y),
{
    let p = img.get_pixel(x, y);
    (p.0[0], p.0[1], p.0[2], p.0[3])
}

/// Relies on `DynamicImage::new_rgb8`: an `ImageRgb8` buffer of the given
/// size with every sample zero, so each pixel reads back as opaque black.
/// It panics when `3 * w * h` overflows `usize`.
#[verifier::external_body]
pub(crate) fn blank_rgb8(w: u32, h: u32) -> (r: image::DynamicImage)
    requires
        3 * w * h <= usize::MAX,
    ensures
        is_rgb8(r),
        image_width(r) == w,
        image_height(r) == h,
        forall|x: u32, y: u32| x < w && y < h ==> pixel_of(r, x, y) == (0u8, 0u8, 0u8, 255u8),
{
    image::DynamicImage::new_rgb8(w, h)
}

/// Relies on `GenericImage::put_pixel` for `DynamicImage`: on an
/// `ImageRgb8` buffer the colour channels are stored at `(x, y)` and the
/// alpha is dropped, so the pixel reads back opaque; nothing else changes.
/// It panics outside the image.
#[verifier::external_body]
pub(crate) fn write_pixel(img: &mut image::DynamicImage, x: u32, y: u32, p: (u8, u8, u8, u8))
    requires
        is_rgb8(*old(img)),
        in_bounds(*old(img), x, y),
    ensures
        is_rgb8(*final(img)),
        image_width(*final(img)) == image_width(*old(img)),
        image_height(*final(img)) == image_height(*old(img)),
        pixel_of(*final(img), x, y) == (p.0, p.1, p.2, 255u8),
        forall|i: u32, j: u32|
            in_bounds(*old(img), i, j) && !(i == x && j == y) ==> pixel_of(*final(img), i, j)
                == pixel_of(*old(img), i, j),
{
    img.put_pixel(x, y, image::Rgba([p.0, p.1, p.2, p.3]))
}

} // verus!
