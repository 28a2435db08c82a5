//! The top of the pipeline: seeding a fresh background image that carries a
//! line of centered text, and the stub that re-renders onto an existing one.

use vstd::prelude::*;

use crate::color::Color;
use crate::compose::blend_pixel;
use crate::compose::center_offset;
use crate::compose::compose_onto;
use crate::compose::composed_pixel;
use crate::errors::TextError;
use crate::imagebuf::filled;
use crate::imagebuf::image_height;
use crate::imagebuf::image_pixels;
use crate::imagebuf::image_width;
use crate::imagebuf::RenderedImage;
use crate::layout::lemma_missing_glyph_names_char;
use crate::raster::draw_with_font;
use crate::raster::failed_under;
use crate::raster::pick_random_font;
use crate::raster::text_err_spec;

verus! {

/// The line of text a seeded background carries.
pub const SEED_TEXT: &'static str = "hello";

/// What the seed command asks for: output dimensions and a background color.
#[derive(Clone, Copy, Debug, PartialEq, Eq, Structural)]
pub struct SeedArgs {
    pub width: u16,
    pub height: u16,
    pub background: Color,
}

/// What the update command asks for: nothing, in the current scope.
#[derive(Clone, Copy, Debug, PartialEq, Eq, Structural)]
pub struct UpdateArgs {}

/// The image subcommands.
#[derive(Clone, Copy, Debug, PartialEq, Eq, Structural)]
pub enum Command {
    Seed(SeedArgs),
    Update(UpdateArgs),
}

/// The value of pixel `(x, y)` of a seeded `w × h` image: the uniform
/// background, blended at the image's center with a coverage mask tinted
/// with the background's inverse, and bare background everywhere else.
pub open spec fn seeded_pixel(
    bg: Color,
    mw: int,
    mh: int,
    alpha: Seq<u8>,
    w: int,
    h: int,
    x: int,
    y: int,
) -> (u8, u8, u8) {
    let mx = x - center_offset(w, mw);
    let my = y - center_offset(h, mh);
    if 0 <= mx < mw && 0 <= my < mh {
        blend_pixel((bg.r, bg.g, bg.b), bg.inverse_spec(), alpha[my * mw + mx])
    } else {
        (bg.r, bg.g, bg.b)
    }
}

/// A `w × h` image every pixel of which is the uniform background composed,
/// centered, with the given coverage mask tinted with the background's
/// inverse.  Kept opaque so that it can stand under a quantifier; reveal it
/// to reach the pixel-level statement.
#[verifier::opaque]
pub open spec fn seeded_image(
    bg: Color,
    w: int,
    h: int,
    mw: int,
    mh: int,
    alpha: Seq<u8>,
    im: RenderedImage,
) -> bool {
    forall|x: int, y: int|
        0 <= x < w && 0 <= y < h ==> image_pixels(im)[(x, y)] == seeded_pixel(
            bg,
            mw,
            mh,
            alpha,
            w,
            h,
            x,
            y,
        )
}

/// What a successfully seeded image looks like: some coverage mask, blended
/// centered over the uniform background and tinted with its inverse, decides
/// every pixel.
pub open spec fn seed_post(args: SeedArgs, im: RenderedImage) -> bool {
    exists|mw: int, mh: int, alpha: Seq<u8>| #[trigger] seeded_image(
        args.background,
        args.width as int,
        args.height as int,
        mw,
        mh,
        alpha,
        im,
    )
}

/// Seeds a new background image: a `width × height` buffer filled with the
/// background color, over which the seed text is drawn centered, in a
/// random font, tinted with the background's inverse.  Any failure of font
/// selection, layout or rasterization propagates unchanged and no image is
/// produced.  The two conditions the failure taxonomy has no variant for —
/// a measured box past the allocation cap, or a font that cannot be scaled
/// — leave the background bare instead, since a backend error value cannot
/// be fabricated.
pub fn seed(args: &SeedArgs) -> (res: Result<RenderedImage, TextError>)
    ensures
        res is Ok ==> image_width(res->Ok_0) == args.width as int && image_height(res->Ok_0)
            == args.height as int,
        res is Ok ==> seed_post(*args, res->Ok_0),
        res is Err ==> text_err_spec(SEED_TEXT@, res->Err_0),
{
    let w = args.width as u32;
    let h = args.height as u32;
    proof {
        assert((w as int) * (h as int) <= 0x1_0000_0000) by (nonlinear_arith)
            requires
                0 <= w as int <= 0xFFFF,
                0 <= h as int <= 0xFFFF,
        ;
    }
    let mut img = filled(w, h, args.background);
    let tint = args.background.inverse();
    let font = match pick_random_font() {
        Ok(f) => f,
        Err(e) => {
            return Err(e);
        },
    };
    let ghost gfont = font;
    let mask = match draw_with_font(SEED_TEXT, font) {
        Ok(Some(m)) => m,
        Ok(None) => {
            proof {
                reveal(seeded_image);
                assert(seeded_image(
                    args.background,
                    args.width as int,
                    args.height as int,
                    0,
                    0,
                    Seq::<u8>::empty(),
                    img,
                ));
                assert(seed_post(*args, img));
            }
            return Ok(img);
        },
        Err(e) => {
            proof {
                reveal(failed_under);
                assert(failed_under(gfont, SEED_TEXT@, e));
                if !(e is GlyphRasterizationFailed) {
                    lemma_missing_glyph_names_char(gfont, SEED_TEXT@, e);
                }
            }
            return Err(e);
        },
    };
    let ghost before = img;
    compose_onto(&mut img, &mask, tint);
    proof {
        assert forall|x: int, y: int|
            0 <= x < args.width as int && 0 <= y < args.height as int implies image_pixels(img)[(
            x,
            y,
        )] == seeded_pixel(
            args.background,
            mask.width as int,
            mask.height as int,
            mask.alpha@,
            args.width as int,
            args.height as int,
            x,
            y,
        ) by {
            assert(image_pixels(img)[(x, y)] == composed_pixel(
                image_pixels(before),
                tint,
                mask.width as int,
                mask.height as int,
                mask.alpha@,
                args.width as int,
                args.height as int,
                x,
                y,
            ));
            assert(image_pixels(before)[(x, y)] == (
                args.background.r,
                args.background.g,
                args.background.b,
            ));
        }
        reveal(seeded_image);
        assert(seeded_image(
            args.background,
            args.width as int,
            args.height as int,
            mask.width as int,
            mask.height as int,
            mask.alpha@,
            img,
        ));
        assert(seed_post(*args, img));
    }
    Ok(img)
}

/// Re-renders text onto an existing image.  Its intended semantics are not
/// settled, so it returns the image unchanged.
pub fn update(img: RenderedImage) -> (res: RenderedImage)
    ensures
        res == img,
{
    img
}

/// Processes an image subcommand: seeding yields the new image or the
/// failure it hit, unchanged; updating has nothing to produce in the
/// current scope and never fails.
pub fn command(arg: Command) -> (res: Result<Option<RenderedImage>, TextError>)
    ensures
        arg is Seed && res is Ok ==> res->Ok_0 is Some,
        arg matches Command::Seed(a) ==> (res matches Ok(Some(im)) ==> image_width(im)
            == a.width as int && image_height(im) == a.height as int && seed_post(a, im)),
        arg is Update ==> res is Ok && res->Ok_0 is None,
        res is Err ==> arg is Seed && text_err_spec(SEED_TEXT@, res->Err_0),
{
    match arg {
        Command::Seed(args) => {
            match seed(&args) {
                Ok(im) => Ok(Some(im)),
                Err(e) => Err(e),
            }
        },
        Command::Update(_) => Ok(None),
    }
}

} // verus!
