//! The canvas composer: alpha-blending a rendered coverage mask, tinted with
//! the text color, onto the center of a background image.

use vstd::prelude::*;

use crate::color::Color;
use crate::imagebuf::height_of;
use crate::imagebuf::image_height;
use crate::imagebuf::image_pixels;
use crate::imagebuf::image_width;
use crate::imagebuf::pixel_at;
use crate::imagebuf::set_pixel;
use crate::imagebuf::width_of;
use crate::imagebuf::RenderedImage;
use crate::raster::Mask;

verus! {

/// Standard alpha compositing of one channel: the tint weighted by the
/// coverage, the background by the rest, rounded to nearest.
pub open spec fn blend_channel(bg: u8, fg: u8, a: u8) -> u8 {
    ((((fg as int) * (a as int)) + ((bg as int) * (255 - a as int)) + 127) / 255) as u8
}

/// One background pixel blended with the tint at the given coverage.
pub open spec fn blend_pixel(orig: (u8, u8, u8), tint: Color, a: u8) -> (u8, u8, u8) {
    (blend_channel(orig.0, tint.r, a), blend_channel(orig.1, tint.g, a), blend_channel(
        orig.2,
        tint.b,
        a,
    ))
}

/// Where a centered inner extent starts inside (or outside) an outer one.
pub open spec fn center_offset(outer: int, inner: int) -> int {
    if inner <= outer {
        (outer - inner) / 2
    } else {
        -((inner - outer) / 2)
    }
}

/// The value of image pixel `(x, y)` once the mask cells before row `rows`,
/// plus the cells of row `rows` before column `cols`, have been blended:
/// blended if its mask cell has been processed, untouched otherwise.
pub open spec fn composed_upto(
    orig: Map<(int, int), (u8, u8, u8)>,
    tint: Color,
    mw: int,
    mh: int,
    alpha: Seq<u8>,
    w: int,
    h: int,
    x: int,
    y: int,
    rows: int,
    cols: int,
) -> (u8, u8, u8) {
    let mx = x - center_offset(w, mw);
    let my = y - center_offset(h, mh);
    if 0 <= mx < mw && 0 <= my < mh && (my < rows || (my == rows && mx < cols)) {
        blend_pixel(orig[(x, y)], tint, alpha[my * mw + mx])
    } else {
        orig[(x, y)]
    }
}

/// The value of image pixel `(x, y)` after the whole mask has been blended
/// onto the image's center.
pub open spec fn composed_pixel(
    orig: Map<(int, int), (u8, u8, u8)>,
    tint: Color,
    mw: int,
    mh: int,
    alpha: Seq<u8>,
    w: int,
    h: int,
    x: int,
    y: int,
) -> (u8, u8, u8) {
    composed_upto(orig, tint, mw, mh, alpha, w, h, x, y, mh, 0)
}

fn blend_channel_exec(bg: u8, fg: u8, a: u8) -> (r: u8)
    ensures
        r == blend_channel(bg, fg, a),
{
    proof {
        assert((fg as int) * (a as int) <= 65025 && (bg as int) * (255 - a as int) <= 65025 && 0
            <= (fg as int) * (a as int) && 0 <= (bg as int) * (255 - a as int))
            by (nonlinear_arith)
            requires
                0 <= fg as int <= 255,
                0 <= bg as int <= 255,
                0 <= a as int <= 255,
        ;
    }
    let num: u32 = (fg as u32) * (a as u32) + (bg as u32) * (255 - (a as u32)) + 127;
    (num / 255) as u8
}

fn center_offset_exec(outer: u32, inner: u32) -> (r: i64)
    ensures
        r as int == center_offset(outer as int, inner as int),
{
    if inner <= outer {
        ((outer - inner) / 2) as i64
    } else {
        0 - (((inner - outer) / 2) as i64)
    }
}

/// Overlays the coverage mask onto the image, centered, tinting full
/// coverage with `tint`, leaving uncovered pixels exactly as they were.
/// Mask cells that fall outside the image are clipped away.
pub fn compose_onto(img: &mut RenderedImage, mask: &Mask, tint: Color)
    requires
        mask.wf(),
    ensures
        image_width(*final(img)) == image_width(*old(img)),
        image_height(*final(img)) == image_height(*old(img)),
        forall|x: int, y: int|
            0 <= x < image_width(*old(img)) && 0 <= y < image_height(*old(img))
                ==> image_pixels(*final(img))[(x, y)] == composed_pixel(
                image_pixels(*old(img)),
                tint,
                mask.width as int,
                mask.height as int,
                mask.alpha@,
                image_width(*old(img)),
                image_height(*old(img)),
                x,
                y,
            ),
{
    let w = width_of(img);
    let h = height_of(img);
    let ox = center_offset_exec(w, mask.width);
    let oy = center_offset_exec(h, mask.height);
    let ghost orig = image_pixels(*img);
    let ghost mwi = mask.width as int;
    let ghost mhi = mask.height as int;
    let mut my: u32 = 0;
    while my < mask.height
        invariant
            mask.wf(),
            0 <= my <= mask.height,
            w as int == image_width(*old(img)),
            h as int == image_height(*old(img)),
            image_width(*img) == image_width(*old(img)),
            image_height(*img) == image_height(*old(img)),
            ox as int == center_offset(w as int, mwi),
            oy as int == center_offset(h as int, mhi),
            orig == image_pixels(*old(img)),
            mwi == mask.width as int,
            mhi == mask.height as int,
            forall|x: int, y: int|
                0 <= x < w as int && 0 <= y < h as int ==> image_pixels(*img)[(x, y)]
                    == composed_upto(
                    orig,
                    tint,
                    mwi,
                    mhi,
                    mask.alpha@,
                    w as int,
                    h as int,
                    x,
                    y,
                    my as int,
                    0,
                ),
        decreases mask.height - my,
    {
        let mut mx: u32 = 0;
        while mx < mask.width
            invariant
                mask.wf(),
                0 <= mx <= mask.width,
                0 <= my < mask.height,
                w as int == image_width(*old(img)),
                h as int == image_height(*old(img)),
                image_width(*img) == image_width(*old(img)),
                image_height(*img) == image_height(*old(img)),
                ox as int == center_offset(w as int, mwi),
                oy as int == center_offset(h as int, mhi),
                orig == image_pixels(*old(img)),
                mwi == mask.width as int,
                mhi == mask.height as int,
                forall|x: int, y: int|
                    0 <= x < w as int && 0 <= y < h as int ==> image_pixels(*img)[(x, y)]
                        == composed_upto(
                        orig,
                        tint,
                        mwi,
                        mhi,
                        mask.alpha@,
                        w as int,
                        h as int,
                        x,
                        y,
                        my as int,
                        mx as int,
                    ),
            decreases mask.width - mx,
        {
            let xi: i64 = ox + mx as i64;
            let yi: i64 = oy + my as i64;
            if 0 <= xi && xi < w as i64 && 0 <= yi && yi < h as i64 {
                let xu = xi as u32;
                let yu = yi as u32;
                proof {
                    assert((my as int) * mwi + (mx as int) < mwi * mhi && 0 <= (my as int) * mwi
                        + (mx as int) && (my as int) * mwi <= 0xFFFF_FFFF * 0xFFFF_FFFF)
                        by (nonlinear_arith)
                        requires
                            0 <= mx as int,
                            (mx as int) < mwi,
                            0 <= my as int,
                            (my as int) < mhi,
                            mwi <= 0xFFFF_FFFF,
                            mhi <= 0xFFFF_FFFF,
                    ;
                }
                let idx64: u64 = (my as u64) * (mask.width as u64) + (mx as u64);
                let av = mask.alpha[idx64 as usize];
                let below = pixel_at(img, xu, yu);
                let blended = Color {
                    r: blend_channel_exec(below.r, tint.r, av),
                    g: blend_channel_exec(below.g, tint.g, av),
                    b: blend_channel_exec(below.b, tint.b, av),
                };
                let ghost prev = image_pixels(*img);
                proof {
                    assert(forall|x: int, y: int|
                        0 <= x < w as int && 0 <= y < h as int ==> prev[(x, y)] == composed_upto(
                            orig,
                            tint,
                            mwi,
                            mhi,
                            mask.alpha@,
                            w as int,
                            h as int,
                            x,
                            y,
                            my as int,
                            mx as int,
                        ));
                    assert(xu as int == ox as int + mx as int);
                    assert(yu as int == oy as int + my as int);
                    assert(idx64 as int == (my as int) * mwi + (mx as int));
                }
                set_pixel(img, xu, yu, blended);
                proof {
                    assert forall|x: int, y: int|
                        0 <= x < w as int && 0 <= y < h as int implies image_pixels(*img)[(x, y)]
                        == composed_upto(
                        orig,
                        tint,
                        mwi,
                        mhi,
                        mask.alpha@,
                        w as int,
                        h as int,
                        x,
                        y,
                        my as int,
                        mx as int + 1,
                    ) by {
                        let cmx = x - center_offset(w as int, mwi);
                        let cmy = y - center_offset(h as int, mhi);
                        assert(prev[(x, y)] == composed_upto(
                            orig,
                            tint,
                            mwi,
                            mhi,
                            mask.alpha@,
                            w as int,
                            h as int,
                            x,
                            y,
                            my as int,
                            mx as int,
                        ));
                        if x == xu as int && y == yu as int {
                            assert(cmx == mx as int && cmy == my as int);
                            assert(prev[(x, y)] == orig[(x, y)]);
                            assert(image_pixels(*img)[(x, y)] == (blended.r, blended.g,
                            blended.b));
                            assert((blended.r, blended.g, blended.b) == blend_pixel(
                                orig[(x, y)],
                                tint,
                                mask.alpha@[cmy * mwi + cmx],
                            ));
                        } else {
                            assert(!(cmx == mx as int && cmy == my as int));
                            assert(image_pixels(*img)[(x, y)] == prev[(x, y)]);
                        }
                    }
                }
            } else {
                proof {
                    assert forall|x: int, y: int|
                        0 <= x < w as int && 0 <= y < h as int implies image_pixels(*img)[(x, y)]
                        == composed_upto(
                        orig,
                        tint,
                        mwi,
                        mhi,
                        mask.alpha@,
                        w as int,
                        h as int,
                        x,
                        y,
                        my as int,
                        mx as int + 1,
                    ) by {
                        let cmx = x - center_offset(w as int, mwi);
                        let cmy = y - center_offset(h as int, mhi);
                        assert(image_pixels(*img)[(x, y)] == composed_upto(
                            orig,
                            tint,
                            mwi,
                            mhi,
                            mask.alpha@,
                            w as int,
                            h as int,
                            x,
                            y,
                            my as int,
                            mx as int,
                        ));
                        if cmx == mx as int && cmy == my as int {
                            assert(x == ox as int + mx as int && y == oy as int + my as int);
                            assert(false);
                        }
                    }
                }
            }
            mx = mx + 1;
        }
        proof {
            assert forall|x: int, y: int|
                0 <= x < w as int && 0 <= y < h as int implies image_pixels(*img)[(x, y)]
                == composed_upto(
                orig,
                tint,
                mwi,
                mhi,
                mask.alpha@,
                w as int,
                h as int,
                x,
                y,
                my as int + 1,
                0,
            ) by {
                assert(image_pixels(*img)[(x, y)] == composed_upto(
                    orig,
                    tint,
                    mwi,
                    mhi,
                    mask.alpha@,
                    w as int,
                    h as int,
                    x,
                    y,
                    my as int,
                    mwi,
                ));
            }
        }
        my = my + 1;
    }
}

} // verus!
