//! The trusted surface over the output pixel buffer.
//!
//! The rendered image is an RGB buffer of the `image` crate, held opaquely;
//! the uninterpreted functions below name its dimensions and its pixel
//! table, and the wrappers state how each buffer call reads or writes them.

use vstd::prelude::*;

use crate::color::Color;

verus! {

/// The final RGB pixel buffer at the requested output dimensions.
#[verifier::external_body]
#[derive(Debug)]
pub struct RenderedImage {
    inner: image::RgbImage,
}

/// The pixel width of a rendered image.
pub uninterp spec fn image_width(im: RenderedImage) -> int;

/// The pixel height of a rendered image.
pub uninterp spec fn image_height(im: RenderedImage) -> int;

/// The pixel table of a rendered image: the channel triple at each
/// in-range coordinate pair.
pub uninterp spec fn image_pixels(im: RenderedImage) -> Map<(int, int), (u8, u8, u8)>;

/// Relies on `image::RgbImage::from_pixel`: allocates a `width × height`
/// buffer with every pixel set to the given color.
#[verifier::external_body]
pub fn filled(width: u32, height: u32, background: Color) -> (res: RenderedImage)
    requires
        (width as int) * (height as int) <= 0x1_0000_0000,
    ensures
        image_width(res) == width as int,
        image_height(res) == height as int,
        forall|x: int, y: int|
            0 <= x < width as int && 0 <= y < height as int ==> image_pixels(res)[(x, y)] == (
            background.r,
            background.g,
            background.b,
            ),
{
    RenderedImage {
        inner: image::RgbImage::from_pixel(
            width,
            height,
            image::Rgb([background.r, background.g, background.b]),
        ),
    }
}

/// Relies on `image::ImageBuffer::width`.
#[verifier::external_body]
pub fn width_of(im: &RenderedImage) -> (w: u32)
    ensures
        w as int == image_width(*im),
{
    im.inner.width()
}

/// Relies on `image::ImageBuffer::height`.
#[verifier::external_body]
pub fn height_of(im: &RenderedImage) -> (h: u32)
    ensures
        h as int == image_height(*im),
{
    im.inner.height()
}

/// Relies on `image::ImageBuffer::get_pixel`: reads the channel triple at
/// an in-range coordinate.
#[verifier::external_body]
pub fn pixel_at(im: &RenderedImage, x: u32, y: u32) -> (c: Color)
    requires
        (x as int) < image_width(*im),
        (y as int) < image_height(*im),
    ensures
        (c.r, c.g, c.b) == image_pixels(*im)[(x as int, y as int)],
{
    let p = im.inner.get_pixel(x, y);
    Color { r: p.0[0], g: p.0[1], b: p.0[2] }
}

/// Relies on `image::ImageBuffer::put_pixel`: overwrites the channel triple
/// at an in-range coordinate and touches nothing else.
#[verifier::external_body]
pub(crate) fn set_pixel(im: &mut RenderedImage, x: u32, y: u32, c: Color)
    requires
        (x as int) < image_width(*old(im)),
        (y as int) < image_height(*old(im)),
    ensures
        image_width(*final(im)) == image_width(*old(im)),
        image_height(*final(im)) == image_height(*old(im)),
        image_pixels(*final(im)) == image_pixels(*old(im)).insert(
            (x as int, y as int),
            (c.r, c.g, c.b),
        ),
{
    im.inner.put_pixel(x, y, image::Rgb([c.r, c.g, c.b]));
}

/// Relies on `image::ImageBuffer::into_raw`: hands out the buffer's bytes,
/// row-major, three bytes per pixel, together with the dimensions.
#[verifier::external_body]
pub fn into_raw_parts(im: RenderedImage) -> (res: (Vec<u8>, u32, u32))
    ensures
        res.1 as int == image_width(im),
        res.2 as int == image_height(im),
        res.0@.len() == 3 * image_width(im) * image_height(im),
        forall|x: int, y: int|
            0 <= x < image_width(im) && 0 <= y < image_height(im) ==> res.0@[3 * (y * image_width(
                im,
            ) + x)] == image_pixels(im)[(x, y)].0 && res.0@[3 * (y * image_width(im) + x) + 1]
                == image_pixels(im)[(x, y)].1 && res.0@[3 * (y * image_width(im) + x) + 2]
                == image_pixels(im)[(x, y)].2,
{
    let w = im.inner.width();
    let h = im.inner.height();
    (im.inner.into_raw(), w, h)
}

} // verus!

