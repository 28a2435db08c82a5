//! The glyph rasterizer and the font selector: turning a measured string
//! into a coverage mask, one glyph at a time, at the cursor positions the
//! layout engine assigned.

use vstd::prelude::*;

use crate::errors::TextError;
use crate::fontsys::all_system_fonts;
use crate::fontsys::canvas_height;
use crate::fontsys::canvas_into_pixels;
use crate::fontsys::canvas_pixels;
use crate::fontsys::canvas_width;
use crate::fontsys::font_units_per_em;
use crate::fontsys::load_font;
use crate::fontsys::new_canvas;
use crate::fontsys::new_font_source;
use crate::fontsys::random_usize;
use crate::fontsys::raster_glyph_into;
use crate::fontsys::units_per_em;
use crate::layout::box_after;
use crate::layout::clamp_add;
use crate::layout::cursor_after;
use crate::layout::glyphs_of;
use crate::layout::imax;
use crate::layout::imin;
use crate::layout::lemma_missing_glyph_names_char;
use crate::layout::measure;
use crate::layout::measure_post;
use crate::layout::missing_names_char;
use crate::layout::resolvable;
use crate::layout::resolve;
use crate::layout::resolve_err_spec;
use crate::layout::lemma_resolve_err_agree;
use crate::layout::Glyph;
use crate::layout::TextBoundingBox;
use crate::layout::COORD_MAX;
use crate::layout::COORD_MIN;

verus! {

/// The largest pixel area a mask canvas may be allocated with.
pub const MAX_MASK_AREA: u64 = 0x4000_0000;

/// A rendered text canvas: one coverage byte per pixel, row-major, where 0
/// is untouched background and 255 is full ink.
#[derive(Debug)]
pub struct Mask {
    pub width: u32,
    pub height: u32,
    pub alpha: Vec<u8>,
}

impl Mask {
    /// The byte buffer holds exactly one coverage value per pixel.
    pub open spec fn wf(self) -> bool {
        self.alpha.len() == self.width as int * self.height as int
    }
}

/// Where glyph `i` of a run is rasterized on a canvas whose origin is the
/// box's minimum corner: the cursor accumulated over the glyphs before it,
/// shifted by `-min_x`, at height `-min_y`.
pub open spec fn glyph_position(gs: Seq<Glyph>, bounds: TextBoundingBox, i: int) -> (int, int) {
    (cursor_after(gs.take(i)) - bounds.min_x as int, 0 - bounds.min_y as int)
}

/// What `rasterize` promises of its result: the walk agrees with
/// measurement on which characters are renderable, a backend failure is
/// reported as such, and a produced mask has exactly the measured size.
pub open spec fn rasterize_post(
    f: font_kit::font::Font,
    cs: Seq<char>,
    bounds: TextBoundingBox,
    res: Result<Mask, TextError>,
) -> bool {
    &&& (resolvable(f, cs) ==> (res is Ok || (res is Err
        && res->Err_0 is GlyphRasterizationFailed)))
    &&& (!resolvable(f, cs) ==> res is Err && resolve_err_spec(f, cs, res->Err_0))
    &&& (res is Ok ==> res->Ok_0.wf() && res->Ok_0.width as int == bounds.spec_width()
        && res->Ok_0.height as int == bounds.spec_height())
}

/// Re-walks the string exactly as measurement does — same per-character
/// resolution, same advance rule — and rasterizes glyph `i` into a canvas
/// sized to `bounds`, at `glyph_position(glyphs, bounds, i)` (that is, at
/// `(cursor_i - bounds.min_x, -bounds.min_y)`); the loop carries the proof
/// that each backend call is made at exactly that position.  Rasterization
/// re-scales the font's underlying face, so the font must be scalable and
/// is consumed.
pub fn rasterize(s: &str, font: font_kit::font::Font, bounds: &TextBoundingBox, point_size: u16) -> (res:
    Result<Mask, TextError>)
    requires
        bounds.wf(),
        point_size >= 1,
        font_units_per_em(font) >= 1,
        bounds.spec_width() * bounds.spec_height() <= MAX_MASK_AREA,
    ensures
        rasterize_post(font, s@, *bounds, res),
        s@.len() == 0 ==> res is Ok,
{
    let glyphs = match resolve(s, &font) {
        Ok(gs) => gs,
        Err(e) => {
            return Err(e);
        },
    };
    let w = bounds.width();
    let h = bounds.height();
    let mut canvas = new_canvas(w as i32, h as i32);
    let mut face = font;
    let mut cur: i32 = 0;
    let mut i: usize = 0;
    while i < glyphs.len()
        invariant
            0 <= i <= glyphs.len(),
            cur as int == cursor_after(glyphs@.take(i as int)),
            COORD_MIN as int <= cur as int <= COORD_MAX as int,
            COORD_MIN as int <= bounds.min_x as int <= COORD_MAX as int,
            COORD_MIN as int <= bounds.min_y as int <= COORD_MAX as int,
            w as int == bounds.spec_width(),
            h as int == bounds.spec_height(),
            canvas_width(canvas) == w as int,
            canvas_height(canvas) == h as int,
            canvas_pixels(canvas).len() == w as int * h as int,
            point_size >= 1,
            resolvable(font, s@),
            glyphs@.len() == s@.len(),
            font_units_per_em(face) >= 1,
        decreases glyphs.len() - i,
    {
        let g = glyphs[i];
        let x = (cur as i64 - bounds.min_x as i64) as i32;
        let y = 0 - bounds.min_y;
        proof {
            assert((x as int, y as int) == glyph_position(glyphs@, *bounds, i as int));
        }
        match raster_glyph_into(&mut canvas, &mut face, g.id, point_size, x, y) {
            Ok(_) => {},
            Err(e) => {
                return Err(TextError::GlyphRasterizationFailed(e));
            },
        }
        cur = clamp_add(cur, g.advance);
        proof {
            assert(glyphs@.take(i as int + 1).drop_last() =~= glyphs@.take(i as int));
            assert(glyphs@.take(i as int + 1).last() == g);
            assert(cur as int == cursor_after(glyphs@.take(i as int + 1)));
        }
        i = i + 1;
    }
    let alpha = canvas_into_pixels(canvas);
    Ok(Mask { width: w, height: h, alpha })
}

/// Decides whether a measured box is small enough for a mask canvas.
fn mask_area_fits(w: u32, h: u32) -> (r: bool)
    requires
        0 <= w as int <= 0x7FFF_FFFF,
        0 <= h as int <= 0x7FFF_FFFF,
    ensures
        r == ((w as int) * (h as int) <= MAX_MASK_AREA as int),
{
    proof {
        assert((w as int) * (h as int) <= 0x7FFF_FFFF * 0x7FFF_FFFF) by (nonlinear_arith)
            requires
                0 <= w as int <= 0x7FFF_FFFF,
                0 <= h as int <= 0x7FFF_FFFF,
        ;
    }
    (w as u64) * (h as u64) <= MAX_MASK_AREA
}

/// The decline decision for a drawn mask: it fits exactly when it is within
/// the caller's caps and small enough to be allocated.
pub fn mask_fits(w: u32, h: u32, max_size: (u32, u32)) -> (r: bool)
    requires
        0 <= w as int <= 0x7FFF_FFFF,
        0 <= h as int <= 0x7FFF_FFFF,
    ensures
        r == (w <= max_size.0 && h <= max_size.1 && (w as int) * (h as int)
            <= MAX_MASK_AREA as int),
{
    w <= max_size.0 && h <= max_size.1 && mask_area_fits(w, h)
}

/// Measurement and rasterization treat a string's characters identically:
/// one walk stops on a missing glyph exactly when the other does, and both
/// report the same character.
pub proof fn lemma_measure_rasterize_agree(
    f: font_kit::font::Font,
    cs: Seq<char>,
    bounds: TextBoundingBox,
    r1: Result<TextBoundingBox, TextError>,
    r2: Result<Mask, TextError>,
)
    requires
        measure_post(f, cs, r1),
        rasterize_post(f, cs, bounds, r2),
    ensures
        (r1 is Err && r1->Err_0 is MissingGlyphError) <==> (r2 is Err
            && r2->Err_0 is MissingGlyphError),
        r1 is Err && r1->Err_0 is MissingGlyphError ==> r1->Err_0 == r2->Err_0,
{
    if !resolvable(f, cs) {
        lemma_resolve_err_agree(f, cs, r1->Err_0, r2->Err_0);
    }
}

/// The selector's decision on what the enumeration returned: an empty
/// enumeration is `NoFontsAvailable`, if and only if; otherwise the random
/// draw reduced modulo the count picks the index.
pub fn select_font_index(count: usize, seed: usize) -> (res: Result<usize, TextError>)
    ensures
        res is Err <==> count == 0,
        res is Err ==> res->Err_0 is NoFontsAvailable,
        res is Ok ==> res->Ok_0 == seed % count && res->Ok_0 < count,
{
    if count == 0 {
        Err(TextError::NoFontsAvailable)
    } else {
        Ok(seed % count)
    }
}

/// Picks one font uniformly at random from the fonts available on the host:
/// fails with `NoFontsAvailable` when the enumeration is empty, and
/// surfaces an enumeration or load failure immediately, with no retry.
pub fn pick_random_font() -> (res: Result<font_kit::font::Font, TextError>)
    ensures
        res is Err ==> (res->Err_0 is NoFontsAvailable || res->Err_0 is FontSelectionError
            || res->Err_0 is FontLoadingError),
{
    let source = new_font_source();
    let fonts = match all_system_fonts(&source) {
        Ok(fs) => fs,
        Err(e) => {
            return Err(TextError::FontSelectionError(e));
        },
    };
    let idx = match select_font_index(fonts.len(), random_usize()) {
        Ok(i) => i,
        Err(e) => {
            return Err(e);
        },
    };
    match load_font(&fonts[idx]) {
        Ok(f) => Ok(f),
        Err(e) => Err(TextError::FontLoadingError(e)),
    }
}

/// Clamps a font's design units per em into a usable point size: exactly
/// the units per em, held within `[1, 65535]`.
pub fn natural_point_size(font: &font_kit::font::Font) -> (ps: u16)
    ensures
        ps >= 1,
        ps as int == imax(1, imin(font_units_per_em(*font), 65535)),
{
    let upem = units_per_em(font);
    if upem == 0 {
        1
    } else if upem > 65535 {
        65535
    } else {
        upem as u16
    }
}

/// Measures `s` under `font` and rasterizes it at the font's natural scale.
/// `Ok(None)` declines exactly the strings whose measured box is too large
/// for a canvas, or fonts that cannot be scaled (fixed-size bitmap faces):
/// declining is the one departure from fail-fast propagation, since the
/// failure taxonomy has no variant for these two conditions and a backend
/// error value cannot be fabricated.  A produced mask has exactly the
/// measured dimensions.
pub fn draw_with_font(s: &str, font: font_kit::font::Font) -> (res: Result<Option<Mask>, TextError>)
    ensures
        res matches Ok(Some(m)) ==> m.wf() && resolvable(font, s@) && m.width as int == box_after(
            glyphs_of(font, s@),
        ).spec_width() && m.height as int == box_after(glyphs_of(font, s@)).spec_height(),
        (res is Ok && res->Ok_0 is None) <==> resolvable(font, s@) && (box_after(
            glyphs_of(font, s@),
        ).spec_width() * box_after(glyphs_of(font, s@)).spec_height() > MAX_MASK_AREA
            || font_units_per_em(font) < 1),
        res is Err ==> (resolvable(font, s@) && res->Err_0 is GlyphRasterizationFailed)
            || resolve_err_spec(font, s@, res->Err_0),
        s@.len() == 0 && font_units_per_em(font) >= 1 ==> res is Ok && res->Ok_0 is Some,
{
    let bounds = match measure(s, &font) {
        Ok(b) => b,
        Err(e) => {
            return Err(e);
        },
    };
    if units_per_em(&font) < 1 {
        return Ok(None);
    }
    let ps = natural_point_size(&font);
    proof {
        if s@.len() == 0 {
            assert(bounds == TextBoundingBox::zero());
            assert(bounds.spec_width() * bounds.spec_height() == 0) by (nonlinear_arith)
                requires
                    bounds.spec_width() == 0,
            ;
        }
    }
    if !mask_area_fits(bounds.width(), bounds.height()) {
        return Ok(None);
    }
    match rasterize(s, font, &bounds, ps) {
        Ok(m) => Ok(Some(m)),
        Err(e) => Err(e),
    }
}

/// One loaded font under which a failure is exactly what measuring or
/// rasterizing the string reports: a backend rasterization failure on a
/// fully resolvable string, or the first unresolvable character's error.
/// Kept opaque so that it can stand under a quantifier.
#[verifier::opaque]
pub open spec fn failed_under(f: font_kit::font::Font, s: Seq<char>, e: TextError) -> bool {
    (resolvable(f, s) && e is GlyphRasterizationFailed) || resolve_err_spec(f, s, e)
}

/// What a random-font pipeline may report of a failure: a selection-stage
/// error, or a layout or rasterization failure under some loaded font — and
/// a reported missing glyph always names a character of the string itself.
pub open spec fn text_err_spec(s: Seq<char>, e: TextError) -> bool {
    &&& (e is NoFontsAvailable || e is FontSelectionError || e is FontLoadingError || exists|
        f: font_kit::font::Font,
    | #[trigger] failed_under(f, s, e))
    &&& missing_names_char(s, e)
}

/// One loaded font whose measurement the produced mask matches exactly.
/// Kept opaque so that it can stand under a quantifier.
#[verifier::opaque]
pub open spec fn drawn_under(f: font_kit::font::Font, s: Seq<char>, m: Mask) -> bool {
    &&& resolvable(f, s)
    &&& m.width as int == box_after(glyphs_of(f, s)).spec_width()
    &&& m.height as int == box_after(glyphs_of(f, s)).spec_height()
}

/// One loaded font whose measured box fails the caller's caps or the
/// allocation cap, or which cannot be scaled.  Kept opaque so that it can
/// stand under a quantifier.
#[verifier::opaque]
pub open spec fn declined_under(f: font_kit::font::Font, s: Seq<char>, max_size: (u32, u32)) -> bool {
    &&& resolvable(f, s)
    &&& (font_units_per_em(f) < 1 || !(box_after(glyphs_of(f, s)).spec_width()
        <= max_size.0 as int && box_after(glyphs_of(f, s)).spec_height() <= max_size.1 as int
        && box_after(glyphs_of(f, s)).spec_width() * box_after(glyphs_of(f, s)).spec_height()
        <= MAX_MASK_AREA as int))
}

/// The produced mask matches some loaded font's measurement of the string.
pub open spec fn draw_some_spec(s: Seq<char>, m: Mask) -> bool {
    exists|f: font_kit::font::Font| #[trigger] drawn_under(f, s, m)
}

/// Some loaded font measured the string past the caps, or cannot be scaled.
pub open spec fn draw_none_spec(s: Seq<char>, max_size: (u32, u32)) -> bool {
    exists|f: font_kit::font::Font| #[trigger] declined_under(f, s, max_size)
}

/// Draws the string with a random font at that font's natural scale, never
/// below `min_point` units per em.  `Ok(None)` declines a mask that fails
/// `mask_fits` for the given `max_size`, or a font that cannot be scaled;
/// declining covers what the failure taxonomy has no variant for, since a
/// backend error value cannot be fabricated.  Any failure of selection,
/// layout or rasterization propagates unchanged.
pub fn draw(s: &str, min_point: u32, max_size: (u32, u32)) -> (res: Result<Option<Mask>, TextError>)
    ensures
        res matches Ok(Some(m)) ==> m.wf() && m.width <= max_size.0 && m.height <= max_size.1
            && draw_some_spec(s@, m),
        res is Ok && res->Ok_0 is None ==> draw_none_spec(s@, max_size),
        res is Err ==> text_err_spec(s@, res->Err_0),
{
    let font = match pick_random_font() {
        Ok(f) => f,
        Err(e) => {
            return Err(e);
        },
    };
    let ghost gfont = font;
    let natural = natural_point_size(&font);
    let floor: u16 = if min_point > 65535 {
        65535
    } else if min_point == 0 {
        1
    } else {
        min_point as u16
    };
    let ps = if natural < floor {
        floor
    } else {
        natural
    };
    let bounds = match measure(s, &font) {
        Ok(b) => b,
        Err(e) => {
            proof {
                reveal(failed_under);
                assert(failed_under(gfont, s@, e));
                lemma_missing_glyph_names_char(gfont, s@, e);
            }
            return Err(e);
        },
    };
    if units_per_em(&font) < 1 || !mask_fits(bounds.width(), bounds.height(), max_size) {
        proof {
            reveal(declined_under);
            assert(declined_under(gfont, s@, max_size));
        }
        return Ok(None);
    }
    match rasterize(s, font, &bounds, ps) {
        Ok(m) => {
            proof {
                reveal(drawn_under);
                assert(drawn_under(gfont, s@, m));
            }
            Ok(Some(m))
        },
        Err(e) => {
            proof {
                reveal(failed_under);
                assert(failed_under(gfont, s@, e));
            }
            Err(e)
        },
    }
}

} // verus!
