//! Textures: images sampled at coordinates that wrap around both edges.

use crate::pixels::{height_of, image_height, image_width, pixel_of, read_pixel, width_of};
use vstd::arithmetic::div_mod::lemma_mod_multiples_vanish;
use vstd::prelude::*;

verus! {

/// Euclidean remainder of `coord` by `bound`: always in `0..bound`.
pub open spec fn wrapped(coord: int, bound: int) -> int {
    coord % bound
}

/// Wraps a pixel index onto `0..bound`, for positive and negative overflow
/// alike (Euclidean modulo).
pub fn wrap(coord: i32, bound: u32) -> (r: u32)
    requires
        bound > 0,
    ensures
        r < bound,
        r as int == wrapped(coord as int, bound as int),
{
    let m = (coord as i64).checked_rem_euclid(bound as i64).unwrap();
    m as u32
}

/// An image that textured surfaces take their colour from.
pub struct Texture {
    pub image: image::DynamicImage,
}

impl Texture {
    /// The texture has at least one pixel, so every coordinate wraps onto one.
    pub open spec fn wf(&self) -> bool {
        image_width(self.image) > 0 && image_height(self.image) > 0
    }

    /// The texel that an index pair lands on once both wrap around the
    /// texture's edges.
    pub open spec fn texel_spec(&self, x: i32, y: i32) -> (u8, u8, u8, u8) {
        pixel_of(
            self.image,
            wrapped(x as int, image_width(self.image) as int) as u32,
            wrapped(y as int, image_height(self.image) as int) as u32,
        )
    }

    /// Whether the texture has any pixel at all.
    pub fn is_sampleable(&self) -> (r: bool)
        ensures
            r == self.wf(),
    {
        width_of(&self.image) > 0 && height_of(&self.image) > 0
    }

    /// Width and height in pixels.
    pub fn dimensions(&self) -> (r: (u32, u32))
        ensures
            r == (image_width(self.image), image_height(self.image)),
    {
        (width_of(&self.image), height_of(&self.image))
    }

    /// The 8-bit RGBA texel at pixel index `(x, y)`, each index wrapped
    /// around its axis by Euclidean modulo.
    pub fn texel(&self, x: i32, y: i32) -> (r: (u8, u8, u8, u8))
        requires
            self.wf(),
        ensures
            r == self.texel_spec(x, y),
    {
        let w = width_of(&self.image);
        let h = height_of(&self.image);
        let wx = wrap(x, w);
        let wy = wrap(y, h);
        read_pixel(&self.image, wx, wy)
    }
}

/// Texture lookup is periodic: shifting either index by any whole number
/// of texture widths (resp. heights), forwards or backwards, lands on the
/// same texel.
pub proof fn lemma_texel_periodic(t: &Texture, x: i32, y: i32, kx: int, ky: int)
    requires
        t.wf(),
        i32::MIN <= x + kx * image_width(t.image) <= i32::MAX,
        i32::MIN <= y + ky * image_height(t.image) <= i32::MAX,
    ensures
        t.texel_spec(
            (x + kx * image_width(t.image)) as i32,
            (y + ky * image_height(t.image)) as i32,
        ) == t.texel_spec(x, y),
{
    let w = image_width(t.image) as int;
    let h = image_height(t.image) as int;
    lemma_mod_multiples_vanish(kx, x as int, w);
    lemma_mod_multiples_vanish(ky, y as int, h);
    assert(w * kx == kx * w) by (nonlinear_arith);
    assert(h * ky == ky * h) by (nonlinear_arith);
}

} // verus!
