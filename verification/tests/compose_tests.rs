use imgtext::color::Color;
use imgtext::compose::compose_onto;
use imgtext::imagebuf::filled;
use imgtext::imagebuf::height_of;
use imgtext::imagebuf::into_raw_parts;
use imgtext::imagebuf::pixel_at;
use imgtext::imagebuf::width_of;
use imgtext::raster::Mask;

const WHITE: Color = Color { r: 255, g: 255, b: 255 };
const BLACK: Color = Color { r: 0, g: 0, b: 0 };

#[test]
fn filled_image_is_uniform() {
    let img = filled(4, 3, Color { r: 9, g: 8, b: 7 });
    assert_eq!(width_of(&img), 4);
    assert_eq!(height_of(&img), 3);
    for x in 0..4 {
        for y in 0..3 {
            assert_eq!(pixel_at(&img, x, y), Color { r: 9, g: 8, b: 7 });
        }
    }
}

#[test]
fn full_coverage_paints_the_tint_centered() {
    let mut img = filled(10, 10, WHITE);
    let mask = Mask { width: 2, height: 2, alpha: vec![255, 255, 255, 255] };
    compose_onto(&mut img, &mask, BLACK);
    // The 2x2 mask lands at offset (4, 4) in a 10x10 image.
    for x in 4..6 {
        for y in 4..6 {
            assert_eq!(pixel_at(&img, x, y), BLACK);
        }
    }
    // Everything outside the mask region keeps the background.
    for x in 0..10 {
        for y in 0..10 {
            if !(4..6).contains(&x) || !(4..6).contains(&y) {
                assert_eq!(pixel_at(&img, x, y), WHITE);
            }
        }
    }
}

#[test]
fn zero_coverage_leaves_the_background() {
    let mut img = filled(5, 5, Color { r: 1, g: 2, b: 3 });
    let mask = Mask { width: 3, height: 3, alpha: vec![0; 9] };
    compose_onto(&mut img, &mask, BLACK);
    for x in 0..5 {
        for y in 0..5 {
            assert_eq!(pixel_at(&img, x, y), Color { r: 1, g: 2, b: 3 });
        }
    }
}

#[test]
fn half_coverage_blends_toward_the_tint() {
    let mut img = filled(1, 1, WHITE);
    let mask = Mask { width: 1, height: 1, alpha: vec![128] };
    compose_onto(&mut img, &mask, BLACK);
    // (0*128 + 255*127 + 127) / 255 == 127 for every channel.
    assert_eq!(pixel_at(&img, 0, 0), Color { r: 127, g: 127, b: 127 });
}

#[test]
fn oversized_mask_is_clipped() {
    let mut img = filled(2, 2, WHITE);
    let mask = Mask { width: 4, height: 4, alpha: vec![255; 16] };
    compose_onto(&mut img, &mask, BLACK);
    for x in 0..2 {
        for y in 0..2 {
            assert_eq!(pixel_at(&img, x, y), BLACK);
        }
    }
}

#[test]
fn raw_parts_expose_row_major_rgb() {
    let img = filled(2, 1, Color { r: 10, g: 20, b: 30 });
    let (bytes, w, h) = into_raw_parts(img);
    assert_eq!((w, h), (2, 1));
    assert_eq!(bytes, vec![10, 20, 30, 10, 20, 30]);
}
