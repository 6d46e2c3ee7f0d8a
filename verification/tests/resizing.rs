use compositor::modes::{resize_dimensions, ResizeMode};
use compositor::num::Fraction;
use compositor::raster::{Color, Image};
use compositor::compose::resize_image;

fn red() -> Color {
    Color { r: 255, g: 0, b: 0, a: 255 }
}

#[test]
fn width_resize_keeps_aspect_ratio() {
    let img = Image::from_pixel(10, 5, red());
    let out = resize_image(&img, ResizeMode::Width(20));
    assert_eq!(out.width(), 20);
    assert_eq!(out.height(), 10);
}

#[test]
fn width_resize_truncates_derived_height() {
    // floor(3 * 5 / 7) = 2
    assert_eq!(resize_dimensions(ResizeMode::Width(5), 7, 3), (5, 2));
}

#[test]
fn height_resize_keeps_aspect_ratio() {
    let img = Image::from_pixel(10, 5, red());
    let out = resize_image(&img, ResizeMode::Height(10));
    assert_eq!(out.width(), 20);
    assert_eq!(out.height(), 10);
}

#[test]
fn scale_resize_truncates_both_axes() {
    let three_halves = Fraction { num: 3, den: 2 };
    let img = Image::from_pixel(10, 5, red());
    let out = resize_image(&img, ResizeMode::Scale(three_halves));
    assert_eq!(out.width(), 15);
    assert_eq!(out.height(), 7);
}

#[test]
fn scale_resize_exact_dimensions() {
    let tenth = Fraction { num: 1, den: 10 };
    assert_eq!(resize_dimensions(ResizeMode::Scale(tenth), 99, 5), (9, 0));
}

#[test]
fn scale_with_negative_factor_degenerates_to_zero() {
    let negative = Fraction { num: -1, den: 1 };
    assert_eq!(resize_dimensions(ResizeMode::Scale(negative), 10, 5), (0, 0));
    let img = Image::from_pixel(10, 5, red());
    let out = resize_image(&img, ResizeMode::Scale(negative));
    assert_eq!(out.width(), 0);
    assert_eq!(out.height(), 0);
}

#[test]
fn resample_produces_the_requested_grid() {
    // would fail if the resampler handed its input back unchanged:
    // the 3x3 result has cells a 2x2 grid does not
    let img = Image::from_pixel(2, 2, red());
    let out = resize_image(&img, ResizeMode::Width(3));
    assert_eq!(out.width(), 3);
    assert_eq!(out.height(), 3);
    let _ = out.get_pixel(2, 2);
}
