//! The failure taxonomy of the text pipeline.  Every stage fails fast and
//! hands the first error unchanged to its caller.

use vstd::prelude::*;

verus! {

/// What can go wrong between asking for a font and holding a rendered mask.
#[derive(Debug)]
pub enum TextError {
    /// The host's font enumeration returned an empty set.
    NoFontsAvailable,
    /// The host's font enumeration itself failed.
    FontSelectionError(font_kit::error::SelectionError),
    /// The selected font could not be loaded.
    FontLoadingError(font_kit::error::FontLoadingError),
    /// The font has no glyph for this character; nothing is substituted.
    MissingGlyphError(char),
    /// A glyph's bounds or advance width could not be retrieved.
    MetricsUnavailable(font_kit::error::GlyphLoadingError),
    /// The rasterization backend failed on a glyph; no partial canvas is kept.
    GlyphRasterizationFailed(font_kit::error::GlyphLoadingError),
}

} // verus!
