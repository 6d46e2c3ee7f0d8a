use compositor::compose::{compose, compose_from_images};
use compositor::modes::{BuildCompositedImageOptions, OffsetDescriptor, OffsetMode,
    ResizeDescriptor, ResizeMode};
use compositor::num::Fraction;
use compositor::raster::{Color, Image};
use compositor::CompositeError;

fn opaque(r: u8, g: u8, b: u8) -> Color {
    Color { r, g, b, a: 255 }
}

fn plain_options(background_color: Vec<u8>) -> BuildCompositedImageOptions {
    BuildCompositedImageOptions { background_color, resize_mode: None, offset_mode: None }
}

fn pixel_offset_options(background_color: Vec<u8>, x: i64, y: i64) -> BuildCompositedImageOptions {
    BuildCompositedImageOptions {
        background_color,
        resize_mode: None,
        offset_mode: Some(OffsetDescriptor {
            tag: "Pixel".to_string(),
            pixel: Some((x, y)),
            percent: None,
        }),
    }
}

#[test]
fn canvas_always_has_overlay_extents() {
    let product = Image::from_pixel(100, 100, opaque(255, 0, 0));
    let overlay = Image::from_pixel(4, 3, Color { r: 0, g: 0, b: 0, a: 0 });
    let out = compose_from_images(&product, &overlay, &plain_options(vec![0, 0, 0, 0])).unwrap();
    assert_eq!(out.width(), 4);
    assert_eq!(out.height(), 3);
}

#[test]
fn fully_opaque_overlay_determines_the_output() {
    let product = Image::from_pixel(3, 3, opaque(255, 0, 0));
    let overlay = Image::from_pixel(3, 3, opaque(0, 0, 255));
    let out = compose_from_images(&product, &overlay, &plain_options(vec![7, 7, 7, 255])).unwrap();
    for x in 0..3 {
        for y in 0..3 {
            assert_eq!(out.get_pixel(x, y), opaque(0, 0, 255));
        }
    }
}

#[test]
fn transparent_background_shows_product_and_background() {
    // background alpha 0, fully opaque 2x2 product centred on the pixel
    // (2, 2) of a 4x4 transparent overlay: its top-left corner lands on (1, 1)
    let product = Image::from_pixel(2, 2, opaque(255, 0, 0));
    let overlay = Image::from_pixel(4, 4, Color { r: 0, g: 0, b: 0, a: 0 });
    let opts = pixel_offset_options(vec![9, 8, 7, 0], 2, 2);
    let out = compose_from_images(&product, &overlay, &opts).unwrap();
    for x in 0..4u32 {
        for y in 0..4u32 {
            let expected = if (1..=2).contains(&x) && (1..=2).contains(&y) {
                opaque(255, 0, 0)
            } else {
                Color { r: 9, g: 8, b: 7, a: 0 }
            };
            assert_eq!(out.get_pixel(x, y), expected);
        }
    }
}

#[test]
fn product_outside_canvas_is_clipped_silently() {
    let product = Image::from_pixel(2, 2, opaque(255, 0, 0));
    let overlay = Image::from_pixel(4, 4, Color { r: 0, g: 0, b: 0, a: 0 });
    let opts = pixel_offset_options(vec![1, 2, 3, 4], -100, -100);
    let out = compose_from_images(&product, &overlay, &opts).unwrap();
    for x in 0..4u32 {
        for y in 0..4u32 {
            assert_eq!(out.get_pixel(x, y), Color { r: 1, g: 2, b: 3, a: 4 });
        }
    }
}

#[test]
fn half_transparent_product_blends_over_background() {
    let mut canvas = Image::from_pixel(1, 1, opaque(0, 0, 0));
    let product = Image::from_pixel(1, 1, Color { r: 255, g: 0, b: 0, a: 128 });
    let overlay = Image::from_pixel(1, 1, Color { r: 0, g: 0, b: 0, a: 0 });
    compose(&mut canvas, &product, &overlay, OffsetMode::Center);
    // (255 * 128 + 0 * 127) / 255 = 128; 128 + 255 * 127 / 255 = 255
    assert_eq!(canvas.get_pixel(0, 0), Color { r: 128, g: 0, b: 0, a: 255 });
}

#[test]
fn default_offset_is_center() {
    let product = Image::from_pixel(1, 1, opaque(250, 1, 2));
    let overlay = Image::from_pixel(3, 3, Color { r: 0, g: 0, b: 0, a: 0 });
    let out = compose_from_images(&product, &overlay, &plain_options(vec![0, 0, 0, 0])).unwrap();
    assert_eq!(out.get_pixel(1, 1), opaque(250, 1, 2));
    assert_eq!(out.get_pixel(0, 0), Color { r: 0, g: 0, b: 0, a: 0 });
}

#[test]
fn three_byte_background_color_is_invalid() {
    assert_eq!(
        Color::from_bytes(&vec![1, 2, 3]),
        Err(CompositeError::InvalidArgument)
    );
    let product = Image::from_pixel(1, 1, opaque(255, 0, 0));
    let overlay = Image::from_pixel(2, 2, Color { r: 0, g: 0, b: 0, a: 0 });
    match compose_from_images(&product, &overlay, &plain_options(vec![1, 2, 3])) {
        Err(e) => assert_eq!(e, CompositeError::InvalidArgument),
        Ok(_) => panic!("expected an error"),
    }
}

#[test]
fn five_byte_background_color_is_invalid() {
    assert_eq!(
        Color::from_bytes(&vec![1, 2, 3, 4, 5]),
        Err(CompositeError::InvalidArgument)
    );
    let product = Image::from_pixel(1, 1, opaque(255, 0, 0));
    let overlay = Image::from_pixel(2, 2, Color { r: 0, g: 0, b: 0, a: 0 });
    match compose_from_images(&product, &overlay, &plain_options(vec![1, 2, 3, 4, 5])) {
        Err(e) => assert_eq!(e, CompositeError::InvalidArgument),
        Ok(_) => panic!("expected an error"),
    }
}

#[test]
fn four_byte_background_color_is_read_exactly() {
    assert_eq!(
        Color::from_bytes(&vec![10, 20, 30, 40]),
        Ok(Color { r: 10, g: 20, b: 30, a: 40 })
    );
}

#[test]
fn unknown_resize_tag_is_invalid() {
    let opts = BuildCompositedImageOptions {
        background_color: vec![0, 0, 0, 0],
        resize_mode: Some(ResizeDescriptor {
            tag: "Diagonal".to_string(),
            whole: Some(10),
            factor: None,
        }),
        offset_mode: None,
    };
    assert_eq!(opts.get_resize_mode(), Err(CompositeError::InvalidArgument));
    let product = Image::from_pixel(1, 1, opaque(255, 0, 0));
    let overlay = Image::from_pixel(2, 2, Color { r: 0, g: 0, b: 0, a: 0 });
    match compose_from_images(&product, &overlay, &opts) {
        Err(e) => assert_eq!(e, CompositeError::InvalidArgument),
        Ok(_) => panic!("expected an error"),
    }
}

#[test]
fn unknown_offset_tag_is_invalid() {
    let opts = BuildCompositedImageOptions {
        background_color: vec![0, 0, 0, 0],
        resize_mode: None,
        offset_mode: Some(OffsetDescriptor {
            tag: "Diagonal".to_string(),
            pixel: Some((1, 1)),
            percent: None,
        }),
    };
    assert_eq!(opts.get_offset_mode(), Err(CompositeError::InvalidArgument));
}

#[test]
fn missing_mode_value_is_invalid() {
    let opts = BuildCompositedImageOptions {
        background_color: vec![0, 0, 0, 0],
        resize_mode: Some(ResizeDescriptor { tag: "Width".to_string(), whole: None, factor: None }),
        offset_mode: None,
    };
    assert_eq!(opts.get_resize_mode(), Err(CompositeError::InvalidArgument));
}

#[test]
fn scale_descriptor_parses_to_an_exact_fraction() {
    let opts = BuildCompositedImageOptions {
        background_color: vec![0, 0, 0, 0],
        resize_mode: Some(ResizeDescriptor {
            tag: "Scale".to_string(),
            whole: None,
            factor: Some(Fraction { num: 1, den: 2 }),
        }),
        offset_mode: None,
    };
    assert_eq!(
        opts.get_resize_mode(),
        Ok(Some(ResizeMode::Scale(Fraction { num: 1, den: 2 })))
    );
}

#[test]
fn scale_descriptor_with_bad_denominator_is_invalid() {
    let opts = BuildCompositedImageOptions {
        background_color: vec![0, 0, 0, 0],
        resize_mode: Some(ResizeDescriptor {
            tag: "Scale".to_string(),
            whole: None,
            factor: Some(Fraction { num: 1, den: 0 }),
        }),
        offset_mode: None,
    };
    assert_eq!(opts.get_resize_mode(), Err(CompositeError::InvalidArgument));
    assert_eq!(Fraction::new(1, 0), None);
    assert_eq!(Fraction::new(3, 4), Some(Fraction { num: 3, den: 4 }));
}

#[test]
fn percent_descriptor_parses_and_rejects_bad_denominators() {
    let half = Fraction { num: 50, den: 1 };
    let good = BuildCompositedImageOptions {
        background_color: vec![0, 0, 0, 0],
        resize_mode: None,
        offset_mode: Some(OffsetDescriptor {
            tag: "Percent".to_string(),
            pixel: None,
            percent: Some((half, half)),
        }),
    };
    assert_eq!(good.get_offset_mode(), Ok(OffsetMode::Percent(half, half)));
    let bad = BuildCompositedImageOptions {
        background_color: vec![0, 0, 0, 0],
        resize_mode: None,
        offset_mode: Some(OffsetDescriptor {
            tag: "Percent".to_string(),
            pixel: None,
            percent: Some((half, Fraction { num: 50, den: -1 })),
        }),
    };
    assert_eq!(bad.get_offset_mode(), Err(CompositeError::InvalidArgument));
}

#[test]
fn absent_descriptors_mean_no_resize_and_center() {
    let opts = plain_options(vec![0, 0, 0, 0]);
    assert_eq!(opts.get_resize_mode(), Ok(None));
    assert_eq!(opts.get_offset_mode(), Ok(OffsetMode::Center));
}
