//! Trusted boundary to the `image` crate.
//!
//! The original artifact format of a run is `image::DynamicImage`
//! backed by an RGB byte buffer. The image value is opaque to the
//! verifier, so its dimensions and its per-coordinate RGB contents are
//! given names here, and each method the library calls gets a wrapper
//! whose contract states, over those names, what the crate's source
//! shows. `raster_to_image` then carries a verified raster into that
//! representation pixel by pixel, with a proved correspondence.

use vstd::prelude::*;
use crate::raster::{Raster, Rgba};

verus! {

#[verifier::external_type_specification]
#[verifier::external_body]
pub struct ExDynamicImage(image::DynamicImage);

/// The RGB channels an image holds at each in-range coordinate pair.
pub uninterp spec fn image_rgb(img: image::DynamicImage) -> Map<(int, int), (u8, u8, u8)>;

/// The width and height an image was made with.
pub uninterp spec fn image_dims(img: image::DynamicImage) -> (int, int);

/// Whether an image is backed by an 8-bit RGB buffer. The contract of
/// `put_rgb_pixel` below holds only of such images — on other
/// backings the crate converts the stored color — so every wrapper
/// that states per-coordinate RGB contents is scoped by this name.
pub uninterp spec fn image_is_rgb8(img: image::DynamicImage) -> bool;

/// The RGB channels of a pixel; an RGB image cannot carry its alpha.
pub open spec fn rgb_of(p: Rgba) -> (u8, u8, u8) {
    (p.r, p.g, p.b)
}

/// An image holds exactly a raster's pixels: the same dimensions, and
/// at every coordinate the raster's RGB channels.
pub open spec fn image_matches_raster(img: image::DynamicImage, r: Raster) -> bool {
    &&& image_dims(img) == (r.width as int, r.height as int)
    &&& forall|x: int, y: int|
        0 <= x < r.width as int && 0 <= y < r.height as int ==> image_rgb(img).contains_pair(
            (x, y),
            rgb_of(#[trigger] r.spec_pixel_at(x, y)),
        )
}

/// Relies on `image::DynamicImage::new` with the RGB color type: it
/// returns an RGB-backed image of the given dimensions whose buffer
/// is zeroed. The buffer length is computed as `3` times the width,
/// checked, times the height, checked, and the constructor panics on
/// either overflow, so both cases are excluded.
#[verifier::external_body]
fn new_rgb_image(w: u32, h: u32) -> (img: image::DynamicImage)
    requires
        3 * (w as int) <= usize::MAX as int,
        3 * (w as int) * (h as int) <= usize::MAX as int,
    ensures
        image_is_rgb8(img),
        image_dims(img) == (w as int, h as int),
        forall|x: int, y: int|
            0 <= x < w as int && 0 <= y < h as int ==> image_rgb(img).contains_pair(
                (x, y),
                (0u8, 0u8, 0u8),
            ),
{
    image::DynamicImage::new(w, h, image::ColorType::Rgb8)
}

/// Relies on `image::GenericImage::put_pixel` for `DynamicImage`: on
/// an RGB-backed image it stores the three color channels at the
/// given coordinate, converting the RGBA value by discarding alpha,
/// and leaves every other coordinate alone. Other backings convert
/// the color instead, so the call is admitted only on RGB-backed
/// images. It panics outside the dimensions, so those calls are
/// excluded.
#[verifier::external_body]
fn put_rgb_pixel(img: &mut image::DynamicImage, x: u32, y: u32, p: Rgba)
    requires
        image_is_rgb8(*old(img)),
        (x as int) < image_dims(*old(img)).0,
        (y as int) < image_dims(*old(img)).1,
    ensures
        image_is_rgb8(*final(img)),
        image_dims(*final(img)) == image_dims(*old(img)),
        image_rgb(*final(img)) == image_rgb(*old(img)).insert(
            (x as int, y as int),
            (p.r, p.g, p.b),
        ),
{
    image::GenericImage::put_pixel(img, x, y, image::Rgba([p.r, p.g, p.b, p.a]))
}

/// Carry a raster into the outside image representation, coordinate
/// by coordinate.
pub fn raster_to_image(r: &Raster) -> (img: image::DynamicImage)
    requires
        r.well_formed(),
        3 * (r.width as int) <= usize::MAX as int,
        3 * (r.width as int) * (r.height as int) <= usize::MAX as int,
    ensures
        image_matches_raster(img, *r),
{
    let mut img = new_rgb_image(r.width, r.height);
    let mut y: u32 = 0;
    while y < r.height
        invariant
            y <= r.height,
            r.well_formed(),
            image_is_rgb8(img),
            image_dims(img) == (r.width as int, r.height as int),
            forall|xx: int, yy: int|
                0 <= xx < r.width as int && 0 <= yy < y as int ==> image_rgb(img).contains_pair(
                    (xx, yy),
                    rgb_of(#[trigger] r.spec_pixel_at(xx, yy)),
                ),
        decreases r.height - y,
    {
        let mut x: u32 = 0;
        while x < r.width
            invariant
                y < r.height,
                x <= r.width,
                r.well_formed(),
                image_is_rgb8(img),
                image_dims(img) == (r.width as int, r.height as int),
                forall|xx: int, yy: int|
                    0 <= xx < r.width as int && 0 <= yy < y as int ==> image_rgb(img).contains_pair(
                        (xx, yy),
                        rgb_of(#[trigger] r.spec_pixel_at(xx, yy)),
                    ),
                forall|xx: int|
                    0 <= xx < x as int ==> image_rgb(img).contains_pair(
                        (xx, y as int),
                        rgb_of(#[trigger] r.spec_pixel_at(xx, y as int)),
                    ),
            decreases r.width - x,
        {
            let p = r.pixel_at(x, y);
            put_rgb_pixel(&mut img, x, y, p);
            x = x + 1;
        }
        y = y + 1;
    }
    img
}

} // verus!
