//! The text layout engine: resolving a string's characters to glyph metrics
//! and folding them, left to right, into the tight bounding box of the
//! rendered text.
//!
//! All coordinates live in font design units and are clamped to a fixed
//! window so that the fold is total; the window is far wider than any real
//! font's metrics, so clamping never fires in practice.

use vstd::prelude::*;

use crate::errors::TextError;
use crate::fontsys::font_char_glyphs;
use crate::fontsys::font_glyph_advances;
use crate::fontsys::font_glyph_bounds;
use crate::fontsys::glyph_advance;
use crate::fontsys::glyph_bounds;
use crate::fontsys::glyph_for_char;
use vstd::string::StrSliceExecFns;

verus! {

/// The smallest representable layout coordinate.
pub const COORD_MIN: i32 = -0x4000_0000;

/// The largest representable layout coordinate.
pub const COORD_MAX: i32 = 0x3FFF_FFFF;

/// One resolved character: its glyph identifier, the glyph's own extents in
/// design units, and the advance that moves the cursor past it.
#[derive(Clone, Copy, Debug, PartialEq, Eq, Structural)]
pub struct Glyph {
    pub id: u32,
    pub min_x: i32,
    pub min_y: i32,
    pub max_x: i32,
    pub max_y: i32,
    pub advance: i32,
}

/// The accumulated rectangle across all glyphs of a string: the tight union
/// of the glyph boxes alone, each translated to its cursor position.  An
/// empty string yields the zero-area box at the origin.
#[derive(Clone, Copy, Debug, PartialEq, Eq, Structural)]
pub struct TextBoundingBox {
    pub min_x: i32,
    pub min_y: i32,
    pub max_x: i32,
    pub max_y: i32,
}

/// Coordinates clamped into the fixed layout window.
pub open spec fn clamp_coord(x: int) -> int {
    if x < COORD_MIN as int {
        COORD_MIN as int
    } else if x > COORD_MAX as int {
        COORD_MAX as int
    } else {
        x
    }
}

pub open spec fn imin(a: int, b: int) -> int {
    if a <= b {
        a
    } else {
        b
    }
}

pub open spec fn imax(a: int, b: int) -> int {
    if a <= b {
        b
    } else {
        a
    }
}

impl TextBoundingBox {
    /// The box before any glyph has been processed: zero area at the origin.
    pub open spec fn zero() -> TextBoundingBox {
        TextBoundingBox { min_x: 0, min_y: 0, max_x: 0, max_y: 0 }
    }

    /// Every accumulated box keeps its four coordinates inside the layout
    /// window.
    pub open spec fn wf(self) -> bool {
        &&& COORD_MIN as int <= self.min_x as int <= COORD_MAX as int
        &&& COORD_MIN as int <= self.max_x as int <= COORD_MAX as int
        &&& COORD_MIN as int <= self.min_y as int <= COORD_MAX as int
        &&& COORD_MIN as int <= self.max_y as int <= COORD_MAX as int
    }

    /// The data-model invariant of an accumulated box: ordered extents.
    pub open spec fn ordered(self) -> bool {
        self.min_x <= self.max_x && self.min_y <= self.max_y
    }

    /// The box's width; an inverted extent (which no real font's metrics
    /// produce) counts as empty.
    pub open spec fn spec_width(self) -> int {
        imax(0, self.max_x as int - self.min_x as int)
    }

    pub open spec fn spec_height(self) -> int {
        imax(0, self.max_y as int - self.min_y as int)
    }

    /// The minimal canvas width that contains the rendered text.
    pub fn width(&self) -> (w: u32)
        requires
            self.wf(),
        ensures
            w as int == self.spec_width(),
    {
        let d: i64 = self.max_x as i64 - self.min_x as i64;
        if d < 0 {
            0
        } else {
            d as u32
        }
    }

    /// The minimal canvas height that contains the rendered text.
    pub fn height(&self) -> (h: u32)
        requires
            self.wf(),
        ensures
            h as int == self.spec_height(),
    {
        let d: i64 = self.max_y as i64 - self.min_y as i64;
        if d < 0 {
            0
        } else {
            d as u32
        }
    }
}

/// The cursor position after laying out a run of glyphs: the clamped sum of
/// their advances.
pub open spec fn cursor_after(gs: Seq<Glyph>) -> int
    decreases gs.len(),
{
    if gs.len() == 0 {
        0
    } else {
        clamp_coord(cursor_after(gs.drop_last()) + gs.last().advance as int)
    }
}

/// The box of one glyph placed at cursor position `cur`: its own extents,
/// translated horizontally by the cursor and clamped into the window.
pub open spec fn glyph_box(cur: int, g: Glyph) -> TextBoundingBox {
    TextBoundingBox {
        min_x: clamp_coord(cur + g.min_x as int) as i32,
        min_y: clamp_coord(g.min_y as int) as i32,
        max_x: clamp_coord(cur + g.max_x as int) as i32,
        max_y: clamp_coord(g.max_y as int) as i32,
    }
}

/// The union of two boxes: componentwise minima and maxima.
pub open spec fn box_union(a: TextBoundingBox, b: TextBoundingBox) -> TextBoundingBox {
    TextBoundingBox {
        min_x: imin(a.min_x as int, b.min_x as int) as i32,
        min_y: imin(a.min_y as int, b.min_y as int) as i32,
        max_x: imax(a.max_x as int, b.max_x as int) as i32,
        max_y: imax(a.max_y as int, b.max_y as int) as i32,
    }
}

/// The bounding box after laying out a run of glyphs left to right: the
/// first glyph's box seeds the fold, so the result is the tight union of
/// the glyph boxes alone; only an empty run yields the zero box.
pub open spec fn box_after(gs: Seq<Glyph>) -> TextBoundingBox
    decreases gs.len(),
{
    if gs.len() == 0 {
        TextBoundingBox::zero()
    } else if gs.len() == 1 {
        glyph_box(0, gs.last())
    } else {
        box_union(box_after(gs.drop_last()), glyph_box(cursor_after(gs.drop_last()), gs.last()))
    }
}

/// A glyph whose extents are ordered, as the backend always hands them out.
pub open spec fn ordered_extents(g: Glyph) -> bool {
    g.min_x <= g.max_x && g.min_y <= g.max_y
}

/// A character the font can fully lay out: it has a glyph, and that glyph's
/// bounds and advance can be retrieved.
pub open spec fn char_resolvable(f: font_kit::font::Font, ch: char) -> bool {
    &&& font_char_glyphs(f).contains_key(ch)
    &&& font_glyph_bounds(f).contains_key(font_char_glyphs(f)[ch])
    &&& font_glyph_advances(f).contains_key(font_char_glyphs(f)[ch])
}

pub open spec fn resolvable(f: font_kit::font::Font, cs: Seq<char>) -> bool {
    forall|i: int| 0 <= i < cs.len() ==> char_resolvable(f, cs[i])
}

/// The metrics the font gives a resolvable character.
pub open spec fn glyph_of(f: font_kit::font::Font, ch: char) -> Glyph {
    let id = font_char_glyphs(f)[ch];
    let b = font_glyph_bounds(f)[id];
    Glyph { id, min_x: b.0, min_y: b.1, max_x: b.2, max_y: b.3, advance: font_glyph_advances(f)[id] }
}

pub open spec fn glyphs_of(f: font_kit::font::Font, cs: Seq<char>) -> Seq<Glyph> {
    cs.map(|i: int, ch: char| glyph_of(f, ch))
}

/// The error a resolution walk reports when its first failure is at index
/// `i`: a missing glyph names the character, missing metrics report the
/// backend's cause.
pub open spec fn resolve_err_at(f: font_kit::font::Font, cs: Seq<char>, e: TextError, i: int) -> bool {
    &&& 0 <= i < cs.len()
    &&& (forall|j: int| 0 <= j < i ==> char_resolvable(f, cs[j]))
    &&& !char_resolvable(f, cs[i])
    &&& if !font_char_glyphs(f).contains_key(cs[i]) {
        e == TextError::MissingGlyphError(cs[i])
    } else {
        e is MetricsUnavailable
    }
}

/// The walk failed on the first unresolvable character of the string.
pub open spec fn resolve_err_spec(f: font_kit::font::Font, cs: Seq<char>, e: TextError) -> bool {
    exists|i: int| resolve_err_at(f, cs, e, i)
}

/// What `measure` promises of its result.
pub open spec fn measure_post(f: font_kit::font::Font, cs: Seq<char>, res: Result<
    TextBoundingBox,
    TextError,
>) -> bool {
    &&& (res is Ok <==> resolvable(f, cs))
    &&& (res is Ok ==> res->Ok_0 == box_after(glyphs_of(f, cs)))
    &&& (res is Err ==> resolve_err_spec(f, cs, res->Err_0))
}

pub(crate) fn imin_i32(a: i32, b: i32) -> (r: i32)
    ensures
        r as int == imin(a as int, b as int),
{
    if a <= b {
        a
    } else {
        b
    }
}

pub(crate) fn imax_i32(a: i32, b: i32) -> (r: i32)
    ensures
        r as int == imax(a as int, b as int),
{
    if a <= b {
        b
    } else {
        a
    }
}

pub(crate) fn clamp_add(a: i32, b: i32) -> (r: i32)
    ensures
        r as int == clamp_coord(a as int + b as int),
{
    let s: i64 = a as i64 + b as i64;
    if s < COORD_MIN as i64 {
        COORD_MIN
    } else if s > COORD_MAX as i64 {
        COORD_MAX
    } else {
        s as i32
    }
}

pub(crate) fn clamp_one(v: i32) -> (r: i32)
    ensures
        r as int == clamp_coord(v as int),
{
    if v < COORD_MIN {
        COORD_MIN
    } else if v > COORD_MAX {
        COORD_MAX
    } else {
        v
    }
}

/// Walks the string left to right and resolves every character to its glyph
/// metrics, stopping at the first character the font cannot lay out.
pub fn resolve(s: &str, font: &font_kit::font::Font) -> (res: Result<Vec<Glyph>, TextError>)
    ensures
        res is Ok ==> resolvable(*font, s@) && res->Ok_0@ == glyphs_of(*font, s@),
        res is Ok ==> forall|j: int|
            0 <= j < res->Ok_0@.len() ==> ordered_extents(#[trigger] res->Ok_0@[j]),
        res is Err ==> resolve_err_spec(*font, s@, res->Err_0) && !resolvable(*font, s@),
{
    let n = s.unicode_len();
    let mut glyphs: Vec<Glyph> = Vec::new();
    let mut i: usize = 0;
    while i < n
        invariant
            n == s@.len(),
            0 <= i <= n,
            forall|j: int| 0 <= j < i ==> char_resolvable(*font, s@[j]),
            glyphs@ == glyphs_of(*font, s@.take(i as int)),
            forall|j: int| 0 <= j < glyphs@.len() ==> ordered_extents(#[trigger] glyphs@[j]),
        decreases n - i,
    {
        let ch = s.get_char(i);
        let id = match glyph_for_char(font, ch) {
            Some(id) => id,
            None => {
                proof {
                    assert(resolve_err_at(*font, s@, TextError::MissingGlyphError(ch), i as int));
                }
                return Err(TextError::MissingGlyphError(ch));
            },
        };
        let b = match glyph_bounds(font, id) {
            Ok(b) => b,
            Err(e) => {
                proof {
                    assert(resolve_err_at(*font, s@, TextError::MetricsUnavailable(e), i as int));
                }
                return Err(TextError::MetricsUnavailable(e));
            },
        };
        let adv = match glyph_advance(font, id) {
            Ok(a) => a,
            Err(e) => {
                proof {
                    assert(resolve_err_at(*font, s@, TextError::MetricsUnavailable(e), i as int));
                }
                return Err(TextError::MetricsUnavailable(e));
            },
        };
        let g = Glyph { id, min_x: b.0, min_y: b.1, max_x: b.2, max_y: b.3, advance: adv };
        glyphs.push(g);
        proof {
            assert(g == glyph_of(*font, s@[i as int]));
            assert(glyphs@ =~= glyphs_of(*font, s@.take(i as int + 1)));
        }
        i = i + 1;
    }
    proof {
        assert(s@.take(n as int) =~= s@);
    }
    Ok(glyphs)
}

/// Places one glyph's box at the given cursor position.
fn glyph_box_at(cur: i32, g: Glyph) -> (b: TextBoundingBox)
    ensures
        b == glyph_box(cur as int, g),
        b.wf(),
{
    TextBoundingBox {
        min_x: clamp_add(cur, g.min_x),
        min_y: clamp_one(g.min_y),
        max_x: clamp_add(cur, g.max_x),
        max_y: clamp_one(g.max_y),
    }
}

/// Folds a resolved glyph run into its bounding box: the first glyph's box
/// seeds the fold, each later glyph's box is unioned in at its cursor.
fn fold_box(glyphs: &Vec<Glyph>) -> (b: TextBoundingBox)
    requires
        forall|j: int| 0 <= j < glyphs@.len() ==> ordered_extents(#[trigger] glyphs@[j]),
    ensures
        b == box_after(glyphs@),
        b.wf(),
        b.ordered(),
{
    if glyphs.len() == 0 {
        proof {
            assert(glyphs@ =~= Seq::<Glyph>::empty());
        }
        return TextBoundingBox { min_x: 0, min_y: 0, max_x: 0, max_y: 0 };
    }
    let g0 = glyphs[0];
    let mut bx = glyph_box_at(0, g0);
    let mut cur: i32 = clamp_add(0, g0.advance);
    proof {
        assert(glyphs@.take(1).drop_last() =~= Seq::<Glyph>::empty());
        assert(glyphs@.take(1).last() == g0);
        assert(cursor_after(Seq::<Glyph>::empty()) == 0);
        assert(bx == box_after(glyphs@.take(1)));
        assert(cur as int == cursor_after(glyphs@.take(1)));
    }
    let mut i: usize = 1;
    while i < glyphs.len()
        invariant
            1 <= i <= glyphs.len(),
            cur as int == cursor_after(glyphs@.take(i as int)),
            bx == box_after(glyphs@.take(i as int)),
            bx.wf(),
            bx.ordered(),
            forall|j: int| 0 <= j < glyphs@.len() ==> ordered_extents(#[trigger] glyphs@[j]),
        decreases glyphs.len() - i,
    {
        let g = glyphs[i];
        let gb = glyph_box_at(cur, g);
        let next = TextBoundingBox {
            min_x: imin_i32(bx.min_x, gb.min_x),
            min_y: imin_i32(bx.min_y, gb.min_y),
            max_x: imax_i32(bx.max_x, gb.max_x),
            max_y: imax_i32(bx.max_y, gb.max_y),
        };
        proof {
            assert(glyphs@.take(i as int + 1).drop_last() =~= glyphs@.take(i as int));
            assert(glyphs@.take(i as int + 1).last() == g);
            assert(next == box_union(bx, gb));
        }
        bx = next;
        cur = clamp_add(cur, g.advance);
        i = i + 1;
    }
    proof {
        assert(glyphs@.take(glyphs.len() as int) =~= glyphs@);
    }
    bx
}

/// Measures the tight bounding box of `s` under `font`'s metrics: each
/// character is resolved in order, its glyph box is unioned in at the
/// running cursor, and the cursor advances by the glyph's advance width.
/// The result is the union of the glyph boxes alone; an empty string yields
/// the zero-area box.
pub fn measure(s: &str, font: &font_kit::font::Font) -> (res: Result<TextBoundingBox, TextError>)
    ensures
        measure_post(*font, s@, res),
        res is Ok ==> res->Ok_0.wf() && res->Ok_0.ordered(),
        s@.len() == 0 ==> res == Result::<TextBoundingBox, TextError>::Ok(TextBoundingBox::zero()),
{
    let glyphs = match resolve(s, font) {
        Ok(gs) => gs,
        Err(e) => {
            return Err(e);
        },
    };
    let bx = fold_box(&glyphs);
    Ok(bx)
}

/// A failure that misses a glyph always names a character of the walked
/// string.
pub open spec fn missing_names_char(cs: Seq<char>, e: TextError) -> bool {
    e is MissingGlyphError ==> exists|i: int|
        0 <= i < cs.len() && e == TextError::MissingGlyphError(#[trigger] cs[i])
}

/// Whatever font a resolution walk failed under, a reported missing glyph
/// is a character of the string itself.
pub proof fn lemma_missing_glyph_names_char(f: font_kit::font::Font, cs: Seq<char>, e: TextError)
    requires
        resolve_err_spec(f, cs, e),
    ensures
        missing_names_char(cs, e),
{
    let i = choose|i: int| resolve_err_at(f, cs, e, i);
    if !font_char_glyphs(f).contains_key(cs[i]) {
        assert(0 <= i < cs.len() && e == TextError::MissingGlyphError(cs[i]));
    }
}

/// Appending a glyph only grows the box: the box of a longer run contains
/// the box of its prefix on every side.
pub proof fn lemma_box_monotone(gs: Seq<Glyph>, g: Glyph)
    requires
        gs.len() >= 1,
    ensures
        box_after(gs.push(g)).min_x <= box_after(gs).min_x,
        box_after(gs.push(g)).min_y <= box_after(gs).min_y,
        box_after(gs).max_x <= box_after(gs.push(g)).max_x,
        box_after(gs).max_y <= box_after(gs.push(g)).max_y,
{
    assert(gs.push(g).drop_last() =~= gs);
    assert(gs.push(g).last() == g);
    assert(gs.push(g).len() == gs.len() + 1);
}

/// The first failing character is unique, so two resolution walks over the
/// same string and font report the same condition: if one misses a glyph, so
/// does the other, and they name the same character.
pub proof fn lemma_resolve_err_agree(
    f: font_kit::font::Font,
    cs: Seq<char>,
    e1: TextError,
    e2: TextError,
)
    requires
        resolve_err_spec(f, cs, e1),
        resolve_err_spec(f, cs, e2),
    ensures
        e1 is MissingGlyphError <==> e2 is MissingGlyphError,
        e1 is MissingGlyphError ==> e1 == e2,
{
    let i1 = choose|i: int| resolve_err_at(f, cs, e1, i);
    let i2 = choose|i: int| resolve_err_at(f, cs, e2, i);
    if i1 < i2 {
        assert(char_resolvable(f, cs[i1]));
    } else if i2 < i1 {
        assert(char_resolvable(f, cs[i2]));
    }
    assert(i1 == i2);
}

/// Measurement is deterministic: any two results that `measure` can return
/// for the same string and font agree — same success, same box, and on
/// failure the same missing character.
pub proof fn lemma_measure_deterministic(
    f: font_kit::font::Font,
    cs: Seq<char>,
    r1: Result<TextBoundingBox, TextError>,
    r2: Result<TextBoundingBox, TextError>,
)
    requires
        measure_post(f, cs, r1),
        measure_post(f, cs, r2),
    ensures
        r1 is Ok <==> r2 is Ok,
        r1 is Ok ==> r1 == r2,
        r1 is Err ==> (r1->Err_0 is MissingGlyphError <==> r2->Err_0 is MissingGlyphError),
        r1 is Err && r1->Err_0 is MissingGlyphError ==> r1->Err_0 == r2->Err_0,
{
    if r1 is Err {
        lemma_resolve_err_agree(f, cs, r1->Err_0, r2->Err_0);
    }
}

} // verus!
