//! The trusted boundary to the `image` crate: decoding a byte buffer into
//! RGBA pixels, resampling with the three-lobed Lanczos filter, and encoding
//! pixels as PNG bytes.  Each wrapper's contract states what the crate's own
//! source and documentation show; everything around these calls is verified.

use vstd::prelude::*;
use crate::CompositeError;

verus! {

/// What `image::load_from_memory` followed by `DynamicImage::into_rgba8`
/// yields for a byte buffer: the decode is a function of the bytes alone, so
/// its outcome bears a name; `None` stands for a buffer that does not decode.
/// A `Some` holds width, height, and the row-major RGBA bytes, four per
/// pixel.
pub uninterp spec fn rgba_decoding(buf: Seq<u8>) -> Option<(int, int, Seq<u8>)>;

/// What `image::imageops::resize` with `FilterType::Lanczos3` yields: the
/// row-major RGBA bytes of the resampled image, a function of the source
/// extents, the source bytes and the target extents alone.
pub uninterp spec fn lanczos3_resample(ow: int, oh: int, raw: Seq<u8>, nw: int, nh: int) -> Seq<u8>;

/// What the `image` crate's PNG encoder yields for an RGBA image: a function
/// of the extents and the bytes alone.
pub uninterp spec fn png_encoding(w: int, h: int, raw: Seq<u8>) -> Seq<u8>;

/// Relies on `image::load_from_memory` and `DynamicImage::into_rgba8`:
/// decodes a PNG/JPEG/... buffer into its extents and row-major RGBA bytes,
/// four per pixel.  A buffer that does not decode is a `DecodeError`.
#[verifier::external_body]
pub(crate) fn decode_rgba(buf: &Vec<u8>) -> (r: Result<(u32, u32, Vec<u8>), CompositeError>)
    ensures
        match r {
            Ok(o) => rgba_decoding(buf@) matches Some(t) && o.0 as int == t.0 && o.1 as int == t.1
                && o.2@ == t.2 && t.2.len() == 4 * t.0 * t.1,
            Err(e) => e == CompositeError::DecodeError && rgba_decoding(buf@) is None,
        },
{
    match image::load_from_memory(buf.as_slice()) {
        Ok(img) => {
            let rgba = img.into_rgba8();
            let (w, h) = (rgba.width(), rgba.height());
            Ok((w, h, rgba.into_raw()))
        },
        Err(_) => Err(CompositeError::DecodeError),
    }
}

/// Relies on `image::imageops::resize` with `FilterType::Lanczos3`, reached
/// through `DynamicImage::resize_exact`: the result has exactly the requested
/// extents, whatever they are, and depends on nothing but the arguments.
/// The extent bounds keep the crate's internal buffer lengths within `usize`.
#[verifier::external_body]
pub(crate) fn resample_lanczos3(ow: u32, oh: u32, raw: &Vec<u8>, nw: u32, nh: u32) -> (r: Vec<u8>)
    requires
        raw@.len() == 4 * (ow as int) * (oh as int),
        4 * (nw as int) * (nh as int) <= usize::MAX as int,
        4 * (ow as int) * (nh as int) <= usize::MAX as int,
    ensures
        r@.len() == 4 * (nw as int) * (nh as int),
        r@ == lanczos3_resample(ow as int, oh as int, raw@, nw as int, nh as int),
{
    let img = image::RgbaImage::from_raw(ow, oh, raw.clone()).unwrap();
    let resized = image::DynamicImage::ImageRgba8(img)
        .resize_exact(nw, nh, image::imageops::FilterType::Lanczos3);
    resized.into_rgba8().into_raw()
}

/// Relies on the `image` crate's PNG encoder, reached through
/// `ImageBuffer::write_to`: a lossless encoding with the alpha channel kept.
/// A zero extent is the encoder's only refusal for a correctly sized RGBA
/// buffer written to memory, so with both extents nonzero the call succeeds;
/// the refusal is an `EncodeOrWriteError`.
#[verifier::external_body]
pub(crate) fn encode_png(w: u32, h: u32, raw: &Vec<u8>) -> (r: Result<Vec<u8>, CompositeError>)
    requires
        raw@.len() == 4 * (w as int) * (h as int),
    ensures
        match r {
            Ok(b) => b@ == png_encoding(w as int, h as int, raw@),
            Err(e) => e == CompositeError::EncodeOrWriteError,
        },
        w >= 1 && h >= 1 ==> r is Ok,
{
    let img = image::RgbaImage::from_raw(w, h, raw.clone()).unwrap();
    let mut out: Vec<u8> = Vec::new();
    match img.write_to(&mut std::io::Cursor::new(&mut out), image::ImageFormat::Png) {
        Ok(()) => Ok(out),
        Err(_) => Err(CompositeError::EncodeOrWriteError),
    }
}

} // verus!
