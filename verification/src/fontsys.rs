//! The trusted surface over the font backend.
//!
//! A loaded font is treated as a read-only collection of glyph data: a table
//! from characters to glyph identifiers, and tables from glyph identifiers to
//! typographic bounds and advance widths, all in font design units.  The
//! uninterpreted functions below name those tables; the wrappers state how
//! each backend call reads them.  Rasterization mutates hidden scale state on
//! the underlying face, so it takes the font and the canvas exclusively and
//! promises nothing about the tables of the font value it leaves behind.

use vstd::prelude::*;

verus! {

#[verifier::external_type_specification]
#[verifier::external_body]
pub struct ExFont(font_kit::font::Font);

#[verifier::external_type_specification]
#[verifier::external_body]
pub struct ExHandle(font_kit::handle::Handle);

#[verifier::external_type_specification]
#[verifier::external_body]
pub struct ExSystemSource(font_kit::source::SystemSource);

#[verifier::external_type_specification]
#[verifier::external_body]
pub struct ExCanvas(font_kit::canvas::Canvas);

#[verifier::external_type_specification]
#[verifier::external_body]
pub struct ExSelectionError(font_kit::error::SelectionError);

#[verifier::external_type_specification]
#[verifier::external_body]
pub struct ExFontLoadingError(font_kit::error::FontLoadingError);

#[verifier::external_type_specification]
#[verifier::external_body]
pub struct ExGlyphLoadingError(font_kit::error::GlyphLoadingError);

/// The font's character table: which characters it has a glyph for, and the
/// glyph identifier of each.
pub uninterp spec fn font_char_glyphs(f: font_kit::font::Font) -> Map<char, u32>;

/// The font's typographic bounds table: for each glyph identifier whose
/// metrics can be retrieved, the rectangle `(min_x, min_y, max_x, max_y)` of
/// its outline in font design units.
pub uninterp spec fn font_glyph_bounds(f: font_kit::font::Font) -> Map<u32, (i32, i32, i32, i32)>;

/// The font's advance table: for each glyph identifier whose metrics can be
/// retrieved, the integer-truncated horizontal advance in design units.
pub uninterp spec fn font_glyph_advances(f: font_kit::font::Font) -> Map<u32, i32>;

/// The font's design units per em, a fixed property of the loaded font
/// file.  It is zero exactly for fixed-size bitmap faces, which cannot be
/// rasterized at an arbitrary scale.
pub uninterp spec fn font_units_per_em(f: font_kit::font::Font) -> int;

/// The byte contents of a rasterization canvas, one coverage byte per pixel.
pub uninterp spec fn canvas_pixels(c: font_kit::canvas::Canvas) -> Seq<u8>;

/// The pixel width of a rasterization canvas.
pub uninterp spec fn canvas_width(c: font_kit::canvas::Canvas) -> int;

/// The pixel height of a rasterization canvas.
pub uninterp spec fn canvas_height(c: font_kit::canvas::Canvas) -> int;

/// Relies on font_kit's `SystemSource::new`: constructs the handle to the
/// host's font enumeration capability.
#[verifier::external_body]
pub(crate) fn new_font_source() -> font_kit::source::SystemSource {
    font_kit::source::SystemSource::new()
}

/// Relies on font_kit's `SystemSource::all_fonts`: enumerates every font the
/// host makes discoverable.  The outcome depends on what is installed on the
/// machine, so nothing is promised of it.
#[verifier::external_body]
pub(crate) fn all_system_fonts(
    source: &font_kit::source::SystemSource,
) -> Result<Vec<font_kit::handle::Handle>, font_kit::error::SelectionError> {
    source.all_fonts()
}

/// Relies on font_kit's `Font::from_handle`: loads the font a handle points
/// at.  Whether loading succeeds depends on the file behind the handle, so
/// nothing is promised of the outcome.
#[verifier::external_body]
pub(crate) fn load_font(
    handle: &font_kit::handle::Handle,
) -> Result<font_kit::font::Font, font_kit::error::FontLoadingError> {
    font_kit::font::Font::from_handle(handle)
}

/// Relies on `rand::random`: draws a machine-random index seed.  Nothing can
/// be promised of a random value.
#[verifier::external_body]
pub(crate) fn random_usize() -> usize {
    rand::random::<u64>() as usize
}

/// Relies on font_kit's `Font::glyph_for_char`: a pure character-map lookup
/// in the loaded font, `None` exactly when the font has no glyph for the
/// character.
#[verifier::external_body]
pub(crate) fn glyph_for_char(font: &font_kit::font::Font, ch: char) -> (res: Option<u32>)
    ensures
        res is Some <==> font_char_glyphs(*font).contains_key(ch),
        res is Some ==> res->0 == font_char_glyphs(*font)[ch],
{
    font.glyph_for_char(ch)
}

/// Relies on font_kit's `Font::typographic_bounds`: reads a glyph's outline
/// rectangle in design units from the loaded font, erring exactly when the
/// glyph's metrics cannot be loaded.  The extents come ordered: the backend
/// builds the rectangle from its origin and a nonnegative width and height.
#[verifier::external_body]
pub(crate) fn glyph_bounds(font: &font_kit::font::Font, glyph: u32) -> (res: Result<
    (i32, i32, i32, i32),
    font_kit::error::GlyphLoadingError,
>)
    ensures
        res is Ok <==> font_glyph_bounds(*font).contains_key(glyph),
        res is Ok ==> res->Ok_0 == font_glyph_bounds(*font)[glyph],
        res is Ok ==> res->Ok_0.0 <= res->Ok_0.2 && res->Ok_0.1 <= res->Ok_0.3,
{
    match font.typographic_bounds(glyph) {
        Ok(rect) => {
            let r = rect.to_i32();
            Ok((r.min_x(), r.min_y(), r.max_x(), r.max_y()))
        }
        Err(e) => Err(e),
    }
}

/// Relies on font_kit's `Font::advance`: reads a glyph's horizontal advance
/// in design units from the loaded font (truncated to an integer), erring
/// exactly when the glyph's metrics cannot be loaded.
#[verifier::external_body]
pub(crate) fn glyph_advance(font: &font_kit::font::Font, glyph: u32) -> (res: Result<
    i32,
    font_kit::error::GlyphLoadingError,
>)
    ensures
        res is Ok <==> font_glyph_advances(*font).contains_key(glyph),
        res is Ok ==> res->Ok_0 == font_glyph_advances(*font)[glyph],
{
    match font.advance(glyph) {
        Ok(v) => Ok(v.x() as i32),
        Err(e) => Err(e),
    }
}

/// Relies on font_kit's `Font::metrics`: reads the font's design units per
/// em, a fixed property of the loaded font file (zero for fixed-size
/// bitmap faces).
#[verifier::external_body]
pub(crate) fn units_per_em(font: &font_kit::font::Font) -> (r: u32)
    ensures
        r as int == font_units_per_em(*font),
{
    font.metrics().units_per_em
}

/// Relies on font_kit's `Canvas::new` with the single-byte coverage format:
/// allocates a zeroed canvas whose row stride equals its width.
#[verifier::external_body]
pub(crate) fn new_canvas(width: i32, height: i32) -> (res: font_kit::canvas::Canvas)
    requires
        0 <= width,
        0 <= height,
        width * height <= 0x4000_0000,
    ensures
        canvas_width(res) == width as int,
        canvas_height(res) == height as int,
        canvas_pixels(res) == Seq::new((width * height) as nat, |i: int| 0u8),
{
    font_kit::canvas::Canvas::new(
        pathfinder_geometry::vector::Vector2I::new(width, height),
        font_kit::canvas::Format::A8,
    )
}

/// Relies on font_kit's `Font::rasterize_glyph`: draws one glyph's coverage
/// into the canvas at the given position and point size, with grid fitting
/// and grayscale antialiasing as the fixed configuration.  The call blits in
/// place, so the canvas keeps its dimensions and byte count; what the bytes
/// become is up to the rasterizer.  It also re-scales the underlying face,
/// so it takes the font exclusively and its metric tables afterwards are
/// those of a fresh, unconstrained font value.  The backend insists that
/// setting the face's scale succeeds, which holds of scalable faces but not
/// of fixed-size bitmap ones, so the font's units per em must be positive;
/// what remains is grayscale rendering of a scalable face, whose bitmap
/// comes back in a format the blit converts.
#[verifier::external_body]
pub(crate) fn raster_glyph_into(
    canvas: &mut font_kit::canvas::Canvas,
    font: &mut font_kit::font::Font,
    glyph: u32,
    point_size: u16,
    x: i32,
    y: i32,
) -> (res: Result<(), font_kit::error::GlyphLoadingError>)
    requires
        point_size >= 1,
        font_units_per_em(*old(font)) >= 1,
    ensures
        canvas_width(*final(canvas)) == canvas_width(*old(canvas)),
        canvas_height(*final(canvas)) == canvas_height(*old(canvas)),
        canvas_pixels(*final(canvas)).len() == canvas_pixels(*old(canvas)).len(),
        font_units_per_em(*final(font)) == font_units_per_em(*old(font)),
{
    font.rasterize_glyph(
        canvas,
        glyph,
        point_size.into(),
        pathfinder_geometry::transform2d::Transform2F::from_translation(
            pathfinder_geometry::vector::Vector2I::new(x, y).to_f32(),
        ),
        font_kit::hinting::HintingOptions::Full(point_size.into()),
        font_kit::canvas::RasterizationOptions::GrayscaleAa,
    )
}

/// Relies on font_kit's `Canvas` exposing its pixel buffer as a public
/// field: hands the canvas's bytes out unchanged.
#[verifier::external_body]
pub(crate) fn canvas_into_pixels(canvas: font_kit::canvas::Canvas) -> (res: Vec<u8>)
    ensures
        res@ == canvas_pixels(canvas),
{
    canvas.pixels
}

} // verus!
