//! The compositor: resizes the product image per its directive, builds a
//! solid-colour canvas sized to the overlay, paints the product at the
//! calculated position, and paints the overlay centred on top.

use vstd::prelude::*;
use crate::CompositeError;
use crate::codec::{decode_rgba, encode_png, lanczos3_resample, png_encoding, resample_lanczos3,
    rgba_decoding};
use crate::modes::{calculate_position, position_of, resize_dims, resize_dimensions, center_coord,
    offset_mode_of, resize_mode_of, BuildCompositedImageOptions, OffsetMode, ResizeMode};
use crate::num::lemma_mul_bound;
use crate::raster::{painted, pixels_of_raw, raw_of, solid, Color, Image, ImageModel};

verus! {

/// The resampling buffers of a resize stay within `usize`: the target
/// extents and the intermediate (source width by target height) extents.
pub open spec fn resize_fits(ow: int, oh: int, nw: int, nh: int) -> bool {
    &&& 4 * (nw * nh) <= usize::MAX
    &&& 4 * (ow * nh) <= usize::MAX
}

/// The model of a resized image: the extents the directive computes, and the
/// pixels the Lanczos resample yields for them.
pub open spec fn resized(img: ImageModel, mode: ResizeMode) -> ImageModel {
    let dims = resize_dims(mode, img.width, img.height);
    ImageModel {
        width: dims.0,
        height: dims.1,
        pixels: pixels_of_raw(
            lanczos3_resample(img.width, img.height, raw_of(img.pixels), dims.0, dims.1),
        ),
    }
}

/// Resizes an image per the directive, keeping the aspect ratio when only
/// one extent is given: the new extents are exactly [`resize_dims`], the
/// pixels come from the three-lobed Lanczos resample.
pub fn resize_image(image: &Image, mode: ResizeMode) -> (r: Image)
    requires
        image.wf(),
        mode.wf(),
        resize_fits(
            image@.width,
            image@.height,
            resize_dims(mode, image@.width, image@.height).0,
            resize_dims(mode, image@.width, image@.height).1,
        ),
    ensures
        r.wf(),
        r@ =~= resized(image@, mode),
{
    let ow = image.width();
    let oh = image.height();
    let dims = resize_dimensions(mode, ow, oh);
    let raw = image.to_raw();
    proof {
        assert((image@.width * image@.height) * 4 == 4 * (image@.width) * (image@.height)
            && 4 * ((dims.0 as int) * (dims.1 as int)) == 4 * (dims.0 as int) * (dims.1 as int)
            && 4 * ((image@.width) * (dims.1 as int)) == 4 * (image@.width) * (dims.1 as int))
            by (nonlinear_arith)
        ;
        assert(raw@ == raw_of(image@.pixels));
    }
    let new_raw = resample_lanczos3(ow, oh, &raw, dims.0, dims.1);
    let out = Image::from_raw(dims.0, dims.1, &new_raw);
    out
}

/// The canvas after the whole composition: the product painted at its
/// calculated position, then the overlay painted centred — which, on a
/// canvas with the overlay's own extents, is position `(0, 0)`.
pub open spec fn composed(
    bg: ImageModel,
    product: ImageModel,
    overlay: ImageModel,
    offset: OffsetMode,
) -> ImageModel {
    let pos = position_of(offset, product.width, product.height, bg.width, bg.height);
    let mid = painted(bg, product, pos.0, pos.1);
    painted(
        mid,
        overlay,
        center_coord(bg.width, overlay.width),
        center_coord(bg.height, overlay.height),
    )
}

/// Paints the product image onto the canvas at the position the offset
/// directive yields, then paints the overlay image centred on top,
/// overwriting product pixels beneath it per the alpha-aware blend.  The
/// order of the two paints is a correctness invariant.  Neither source image
/// is mutated.
pub fn compose(
    background_img: &mut Image,
    product_img: &Image,
    overlay_img: &Image,
    product_offset: OffsetMode,
)
    requires
        old(background_img).wf(),
        product_img.wf(),
        overlay_img.wf(),
        product_offset.wf(),
    ensures
        final(background_img).wf(),
        final(background_img)@ =~= composed(
            old(background_img)@,
            product_img@,
            overlay_img@,
            product_offset,
        ),
{
    let base_size = (background_img.width(), background_img.height());
    let product_size = (product_img.width(), product_img.height());
    let pos = calculate_position(product_offset, product_size, base_size);
    background_img.paint(product_img, pos.0, pos.1);

    let overlay_size = (overlay_img.width(), overlay_img.height());
    let overlay_pos = calculate_position(OffsetMode::Center, overlay_size, base_size);
    background_img.paint(overlay_img, overlay_pos.0, overlay_pos.1);
}

/// The options parse, the background colour has exactly four bytes.
pub open spec fn options_valid(opts: BuildCompositedImageOptions) -> bool {
    &&& resize_mode_of(opts.resize_mode) is Some
    &&& opts.background_color@.len() == 4
    &&& offset_mode_of(opts.offset_mode) is Some
}

/// The background colour the options carry.
pub open spec fn background_of(opts: BuildCompositedImageOptions) -> Color
    recommends
        opts.background_color@.len() == 4,
{
    Color {
        r: opts.background_color@[0],
        g: opts.background_color@[1],
        b: opts.background_color@[2],
        a: opts.background_color@[3],
    }
}

/// The product image after the options' resize directive; absent means
/// unchanged.
pub open spec fn product_prepared(product: ImageModel, opts: BuildCompositedImageOptions) -> ImageModel {
    match resize_mode_of(opts.resize_mode) {
        Some(Some(mode)) => resized(product, mode),
        _ => product,
    }
}

/// Whatever resize the options ask for stays within machine bounds.
pub open spec fn prepared_fits(product: ImageModel, opts: BuildCompositedImageOptions) -> bool {
    match resize_mode_of(opts.resize_mode) {
        Some(Some(mode)) => {
            let dims = resize_dims(mode, product.width, product.height);
            resize_fits(product.width, product.height, dims.0, dims.1)
        },
        _ => true,
    }
}

/// The model of the finished composition: a canvas with the overlay's
/// extents filled with the background colour, the prepared product painted
/// at its position, the overlay painted on top.
pub open spec fn composition_result(
    product: ImageModel,
    overlay: ImageModel,
    opts: BuildCompositedImageOptions,
) -> ImageModel
    recommends
        options_valid(opts),
{
    composed(
        solid(overlay.width, overlay.height, background_of(opts)),
        product_prepared(product, opts),
        overlay,
        offset_mode_of(opts.offset_mode)->0,
    )
}

/// Composes two already-decoded images under the given options.  Succeeds if
/// and only if the options are valid and the requested resize stays within
/// machine bounds; every failure is an `InvalidArgument`.  The result canvas
/// is exactly [`composition_result`]: in particular it always has the
/// overlay's extents.
pub fn compose_from_images(
    product_img: &Image,
    overlay_img: &Image,
    options: &BuildCompositedImageOptions,
) -> (r: Result<Image, CompositeError>)
    requires
        product_img.wf(),
        overlay_img.wf(),
    ensures
        options_valid(*options) && prepared_fits(product_img@, *options) ==> (r matches Ok(img)
            && img.wf() && img@ =~= composition_result(product_img@, overlay_img@, *options)),
        !(options_valid(*options) && prepared_fits(product_img@, *options)) ==> r
            == Err::<Image, CompositeError>(CompositeError::InvalidArgument),
{
    let resize = match options.get_resize_mode() {
        Ok(m) => m,
        Err(e) => {
            return Err(e);
        },
    };
    let color = match Color::from_bytes(&options.background_color) {
        Ok(c) => c,
        Err(e) => {
            return Err(e);
        },
    };
    let offset = match options.get_offset_mode() {
        Ok(m) => m,
        Err(e) => {
            return Err(e);
        },
    };
    // a machine-word witness that the canvas extent product fits in usize
    let _overlay_count = overlay_img.pixel_count();
    let mut canvas = Image::from_pixel(overlay_img.width(), overlay_img.height(), color);
    proof {
        assert(canvas@ == solid(overlay_img@.width, overlay_img@.height, background_of(*options)));
    }
    match resize {
        Some(mode) => {
            let dims = resize_dimensions(mode, product_img.width(), product_img.height());
            proof {
                lemma_mul_bound(4 * (dims.0 as int), dims.1 as int, 4 * 0xffff_ffffint, 0xffff_ffffint);
                lemma_mul_bound(
                    4 * (product_img@.width),
                    dims.1 as int,
                    4 * 0xffff_ffffint,
                    0xffff_ffffint,
                );
                assert((4 * (dims.0 as u128 as int)) * (dims.1 as u128 as int) == 4 * ((dims.0 as int)
                    * (dims.1 as int)) && (4 * (product_img@.width)) * (dims.1 as int) == 4 * (
                (product_img@.width) * (dims.1 as int))) by (nonlinear_arith);
            }
            let target: u128 = 4 * (dims.0 as u128) * (dims.1 as u128);
            let inter: u128 = 4 * (product_img.width() as u128) * (dims.1 as u128);
            if target > usize::MAX as u128 || inter > usize::MAX as u128 {
                return Err(CompositeError::InvalidArgument);
            }
            let resized_img = resize_image(product_img, mode);
            proof {
                assert(resized_img@ == product_prepared(product_img@, *options));
            }
            compose(&mut canvas, &resized_img, overlay_img, offset);
        },
        None => {
            compose(&mut canvas, product_img, overlay_img, offset);
        },
    }
    proof {
        assert(canvas@ == composition_result(product_img@, overlay_img@, *options));
    }
    Ok(canvas)
}

/// The model of a decoded buffer: the extents and pixels the decode yields.
pub open spec fn decoded_image(t: (int, int, Seq<u8>)) -> ImageModel {
    ImageModel { width: t.0, height: t.1, pixels: pixels_of_raw(t.2) }
}

/// Decodes the two input buffers, composes them under the options, and
/// encodes the canvas as PNG bytes; the caller persists them.  Every
/// fallible stage surfaces its own error: a buffer that does not decode is a
/// `DecodeError` (the product buffer is decoded first), malformed options an
/// `InvalidArgument`, a refused encoding an `EncodeOrWriteError`.  When both
/// buffers decode, the options are valid, the resize stays within machine
/// bounds and the overlay has nonzero extents, success is owed: the result
/// is `Ok` with the encoded composition.
pub fn build_composited_image(
    product_buffer: &Vec<u8>,
    overlay_buffer: &Vec<u8>,
    options: &BuildCompositedImageOptions,
) -> (r: Result<Vec<u8>, CompositeError>)
    ensures
        rgba_decoding(product_buffer@) is None ==> r == Err::<Vec<u8>, CompositeError>(
            CompositeError::DecodeError,
        ),
        rgba_decoding(product_buffer@) is Some && rgba_decoding(overlay_buffer@) is None ==> r
            == Err::<Vec<u8>, CompositeError>(CompositeError::DecodeError),
        rgba_decoding(product_buffer@) is Some && rgba_decoding(overlay_buffer@) is Some ==> {
            let product = decoded_image(rgba_decoding(product_buffer@)->0);
            let overlay = decoded_image(rgba_decoding(overlay_buffer@)->0);
            if options_valid(*options) && prepared_fits(product, *options) {
                let result = composition_result(product, overlay, *options);
                &&& match r {
                    Ok(bytes) => bytes@ == png_encoding(
                        result.width,
                        result.height,
                        raw_of(result.pixels),
                    ),
                    Err(e) => e == CompositeError::EncodeOrWriteError,
                }
                &&& overlay.width >= 1 && overlay.height >= 1 ==> r is Ok
            } else {
                r == Err::<Vec<u8>, CompositeError>(CompositeError::InvalidArgument)
            }
        },
{
    let product_decoded = match decode_rgba(product_buffer) {
        Ok(t) => t,
        Err(e) => {
            return Err(e);
        },
    };
    let overlay_decoded = match decode_rgba(overlay_buffer) {
        Ok(t) => t,
        Err(e) => {
            return Err(e);
        },
    };
    let product = Image::from_raw(product_decoded.0, product_decoded.1, &product_decoded.2);
    let overlay = Image::from_raw(overlay_decoded.0, overlay_decoded.1, &overlay_decoded.2);
    proof {
        assert(product@ == decoded_image(rgba_decoding(product_buffer@)->0));
        assert(overlay@ == decoded_image(rgba_decoding(overlay_buffer@)->0));
    }
    let canvas = match compose_from_images(&product, &overlay, options) {
        Ok(img) => img,
        Err(e) => {
            return Err(e);
        },
    };
    let raw = canvas.to_raw();
    proof {
        assert((canvas@.width * canvas@.height) * 4 == 4 * (canvas@.width) * (canvas@.height))
            by (nonlinear_arith)
        ;
        assert(raw@ == raw_of(canvas@.pixels));
        // the canvas has the overlay's extents, so a nonzero overlay owes
        // a successful encode
        assert(canvas@.width == overlay@.width && canvas@.height == overlay@.height);
    }
    encode_png(canvas.width(), canvas.height(), &raw)
}

} // verus!
