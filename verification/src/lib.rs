//! Generation of raster background images that carry a line of centered text.
//!
//! The crate is organised leaf-first: `color` holds the fixed-point RGB value
//! with its hex round-trip, `layout` measures a string under a font's metrics,
//! `raster` turns the measured string into a coverage mask, `compose` blends
//! that mask onto a background buffer, and `commands` ties the pipeline
//! together.  `fontsys` and `imagebuf` are the trusted surfaces over the font
//! backend and the pixel buffer; `errors` is the failure taxonomy.

pub mod color;
pub mod commands;
pub mod compose;
pub mod errors;
pub mod fontsys;
pub mod imagebuf;
pub mod layout;
pub mod raster;
