//! Layout, rasterization and seeding against whatever fonts the host has.
//! A host with no usable fonts cannot exercise the glyph paths, so those
//! tests accept a font-selection failure and only then return early.

use imgtext::color::Color;
use imgtext::commands::command;
use imgtext::commands::seed;
use imgtext::commands::update;
use imgtext::commands::Command;
use imgtext::commands::SeedArgs;
use imgtext::commands::UpdateArgs;
use imgtext::errors::TextError;
use imgtext::imagebuf::filled;
use imgtext::imagebuf::height_of;
use imgtext::imagebuf::pixel_at;
use imgtext::imagebuf::width_of;
use imgtext::layout::measure;
use imgtext::raster::draw;
use imgtext::raster::draw_with_font;
use imgtext::raster::mask_fits;
use imgtext::raster::pick_random_font;
use imgtext::raster::select_font_index;

#[test]
fn select_font_index_reduces_the_draw() {
    assert!(matches!(select_font_index(5, 12), Ok(2)));
    assert!(matches!(select_font_index(1, 7), Ok(0)));
    assert!(matches!(select_font_index(3, 2), Ok(2)));
}

#[test]
fn empty_enumeration_is_no_fonts_available() {
    assert!(matches!(select_font_index(0, 9), Err(TextError::NoFontsAvailable)));
}

#[test]
fn mask_fits_respects_every_cap() {
    assert!(mask_fits(10, 10, (10, 10)));
    assert!(!mask_fits(11, 10, (10, 10)));
    assert!(!mask_fits(10, 11, (10, 10)));
    // The allocation cap is one gibipixel: 32768 * 32768 exactly fits.
    assert!(mask_fits(32768, 32768, (u32::MAX, u32::MAX)));
    assert!(!mask_fits(32769, 32768, (u32::MAX, u32::MAX)));
}

#[test]
fn measure_empty_text_is_zero_area() {
    let font = match pick_random_font() {
        Ok(f) => f,
        Err(_) => return,
    };
    let bounds = measure("", &font).unwrap();
    assert_eq!(bounds.width(), 0);
    assert_eq!(bounds.height(), 0);
    assert_eq!(bounds.min_x, 0);
    assert_eq!(bounds.min_y, 0);
    assert_eq!(bounds.max_x, 0);
    assert_eq!(bounds.max_y, 0);
}

#[test]
fn measure_is_deterministic() {
    let font = match pick_random_font() {
        Ok(f) => f,
        Err(_) => return,
    };
    let first = measure("some text", &font);
    let second = measure("some text", &font);
    match (first, second) {
        (Ok(a), Ok(b)) => assert_eq!(a, b),
        (Err(TextError::MissingGlyphError(a)), Err(TextError::MissingGlyphError(b))) => {
            assert_eq!(a, b)
        }
        (Err(_), Err(_)) => {}
        _ => panic!("one walk succeeded and the other failed"),
    }
}

#[test]
fn missing_glyph_reported_alike_by_measure_and_rasterize() {
    let font = match pick_random_font() {
        Ok(f) => f,
        Err(_) => return,
    };
    // A private-use character no ordinary font maps; if this font does map
    // it, the condition cannot be forced and there is nothing to compare.
    let text = "a\u{e01f}b";
    let measured = measure(text, &font);
    let rastered = draw_with_font(text, font);
    match measured {
        Err(TextError::MissingGlyphError(c1)) => match rastered {
            Err(TextError::MissingGlyphError(c2)) => {
                assert_eq!(c1, c2);
                assert_eq!(c1, '\u{e01f}');
            }
            other => panic!("rasterization did not miss the same glyph: {:?}", other.is_ok()),
        },
        _ => {}
    }
}

#[test]
fn mask_has_the_measured_dimensions() {
    let font = match pick_random_font() {
        Ok(f) => f,
        Err(_) => return,
    };
    let bounds = match measure("hi", &font) {
        Ok(b) => b,
        Err(_) => return,
    };
    match draw_with_font("hi", font) {
        Ok(Some(mask)) => {
            assert_eq!(mask.width, bounds.width());
            assert_eq!(mask.height, bounds.height());
            assert_eq!(mask.alpha.len(), (mask.width * mask.height) as usize);
        }
        Ok(None) => panic!("a two-letter mask should be allocatable"),
        Err(_) => {}
    }
}

#[test]
fn draw_respects_the_size_cap() {
    match draw("hi", 24, (4096, 4096)) {
        Ok(Some(mask)) => {
            assert!(mask.width <= 4096);
            assert!(mask.height <= 4096);
        }
        Ok(None) => {}
        Err(_) => {}
    }
}

#[test]
fn seed_produces_exactly_the_requested_dimensions() {
    let args = SeedArgs {
        width: 100,
        height: 50,
        background: Color { r: 255, g: 255, b: 255 },
    };
    let first = seed(&args);
    let second = seed(&args);
    if let Ok(img) = &first {
        assert_eq!(width_of(img), 100);
        assert_eq!(height_of(img), 50);
    }
    if let (Ok(a), Ok(b)) = (&first, &second) {
        assert_eq!((width_of(a), height_of(a)), (width_of(b), height_of(b)));
    }
}

#[test]
fn update_returns_the_image_unchanged() {
    let img = filled(3, 2, Color { r: 5, g: 6, b: 7 });
    let out = update(img);
    assert_eq!(width_of(&out), 3);
    assert_eq!(height_of(&out), 2);
    assert_eq!(pixel_at(&out, 2, 1), Color { r: 5, g: 6, b: 7 });
}

#[test]
fn command_dispatches_update_to_nothing() {
    let out = command(Command::Update(UpdateArgs {})).unwrap();
    assert!(out.is_none());
}

#[test]
fn command_dispatches_seed_to_an_image() {
    let arg = Command::Seed(SeedArgs {
        width: 8,
        height: 4,
        background: Color { r: 0, g: 0, b: 0 },
    });
    match command(arg) {
        Ok(Some(img)) => {
            assert_eq!(width_of(&img), 8);
            assert_eq!(height_of(&img), 4);
        }
        Ok(None) => panic!("seeding must yield an image when it succeeds"),
        Err(_) => {}
    }
}
