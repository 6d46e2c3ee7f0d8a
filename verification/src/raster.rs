//! The owned pixel grid the compositor works on, its mathematical model, and
//! the alpha-aware painting that puts one grid onto another.

use vstd::prelude::*;
use crate::CompositeError;

verus! {

/// One pixel: four 8-bit channels, red, green, blue, alpha.
#[derive(Clone, Copy, Debug, PartialEq, Eq, Structural)]
pub struct Color {
    pub r: u8,
    pub g: u8,
    pub b: u8,
    pub a: u8,
}

impl Color {
    /// Reads a background colour out of a caller-supplied byte buffer, which
    /// must hold exactly four bytes: red, green, blue, alpha.
    pub fn from_bytes(bytes: &Vec<u8>) -> (res: Result<Color, CompositeError>)
        ensures
            bytes@.len() == 4 ==> res == Ok::<Color, CompositeError>(
                Color { r: bytes@[0], g: bytes@[1], b: bytes@[2], a: bytes@[3] },
            ),
            bytes@.len() != 4 ==> res == Err::<Color, CompositeError>(
                CompositeError::InvalidArgument,
            ),
    {
        if bytes.len() == 4 {
            Ok(Color { r: bytes[0], g: bytes[1], b: bytes[2], a: bytes[3] })
        } else {
            Err(CompositeError::InvalidArgument)
        }
    }
}

/// One colour channel of the source blended over the destination channel,
/// weighted by the source alpha `alpha`.
pub open spec fn blend_channel(src: int, dst: int, alpha: int) -> int {
    (src * alpha + dst * (255 - alpha)) / 255
}

/// The standard "over" blend: a fully opaque source replaces the destination,
/// a fully transparent source leaves it unchanged, and in between each
/// channel is weighted by the source alpha.
pub open spec fn blend(dst: Color, src: Color) -> Color {
    Color {
        r: blend_channel(src.r as int, dst.r as int, src.a as int) as u8,
        g: blend_channel(src.g as int, dst.g as int, src.a as int) as u8,
        b: blend_channel(src.b as int, dst.b as int, src.a as int) as u8,
        a: (src.a as int + (dst.a as int) * (255 - src.a as int) / 255) as u8,
    }
}

proof fn lemma_blend_channel_bound(src: int, dst: int, alpha: int)
    requires
        0 <= src <= 255,
        0 <= dst <= 255,
        0 <= alpha <= 255,
    ensures
        0 <= blend_channel(src, dst, alpha) <= 255,
{
    assert(0 <= src * alpha + dst * (255 - alpha) <= 255 * 255) by (nonlinear_arith)
        requires
            0 <= src <= 255,
            0 <= dst <= 255,
            0 <= alpha <= 255,
    ;
}

/// Blending with a fully opaque source yields the source pixel; blending with
/// a fully transparent source leaves the destination pixel unchanged.
pub proof fn lemma_blend_extremes(dst: Color, src: Color)
    ensures
        src.a == 255 ==> blend(dst, src) == src,
        src.a == 0 ==> blend(dst, src) == dst,
{
}

/// Computes [`blend`] in executable code.
pub fn blend_pixel(dst: Color, src: Color) -> (res: Color)
    ensures
        res == blend(dst, src),
{
    proof {
        lemma_blend_channel_bound(src.r as int, dst.r as int, src.a as int);
        lemma_blend_channel_bound(src.g as int, dst.g as int, src.a as int);
        lemma_blend_channel_bound(src.b as int, dst.b as int, src.a as int);
        assert((dst.a as int) * (255 - src.a as int) <= 255 * (255 - src.a as int))
            by (nonlinear_arith)
            requires
                0 <= dst.a as int <= 255,
                0 <= 255 - src.a as int,
        ;
    }
    let alpha: u32 = src.a as u32;
    let inv: u32 = 255 - alpha;
    let nr: u32 = ((src.r as u32) * alpha + (dst.r as u32) * inv) / 255;
    let ng: u32 = ((src.g as u32) * alpha + (dst.g as u32) * inv) / 255;
    let nb: u32 = ((src.b as u32) * alpha + (dst.b as u32) * inv) / 255;
    let na: u32 = alpha + (dst.a as u32) * inv / 255;
    Color { r: nr as u8, g: ng as u8, b: nb as u8, a: na as u8 }
}

/// The mathematical model of an image: its two extents and the row-major
/// sequence of its pixels.
#[verifier::ext_equal]
pub struct ImageModel {
    pub width: int,
    pub height: int,
    pub pixels: Seq<Color>,
}

impl ImageModel {
    /// The pixel sequence holds one entry per grid cell.
    pub open spec fn wf(self) -> bool {
        &&& self.width >= 0
        &&& self.height >= 0
        &&& self.pixels.len() == self.width * self.height
    }

    /// The pixel of the cell at column `x`, row `y`.
    pub open spec fn px(self, x: int, y: int) -> Color
        recommends
            0 <= x < self.width,
            0 <= y < self.height,
    {
        self.pixels[y * self.width + x]
    }

    /// Whether this image, painted with its top-left corner at `(px, py)`,
    /// covers the canvas cell `(x, y)`.
    pub open spec fn covers(self, px: int, py: int, x: int, y: int) -> bool {
        &&& px <= x < px + self.width
        &&& py <= y < py + self.height
    }
}

/// A uniformly filled image: the canvas before anything is painted on it.
pub open spec fn solid(width: int, height: int, color: Color) -> ImageModel
    recommends
        width >= 0,
        height >= 0,
{
    ImageModel { width, height, pixels: Seq::new((width * height) as nat, |k: int| color) }
}

/// The canvas cell `(x, y)` after `src` is painted onto `dst` at `(px, py)`:
/// cells under `src` are blended, all others keep their pixel.  Placements
/// partly or fully outside the canvas are clipped, never an error.
pub open spec fn painted_px(dst: ImageModel, src: ImageModel, px: int, py: int, x: int, y: int) -> Color {
    if src.covers(px, py, x, y) {
        blend(dst.px(x, y), src.px(x - px, y - py))
    } else {
        dst.px(x, y)
    }
}

/// The whole canvas after `src` is painted onto `dst` at `(px, py)`.
pub open spec fn painted(dst: ImageModel, src: ImageModel, px: int, py: int) -> ImageModel {
    ImageModel {
        width: dst.width,
        height: dst.height,
        pixels: Seq::new(
            dst.pixels.len(),
            |k: int| if dst.width > 0 {
                painted_px(dst, src, px, py, k % dst.width, k / dst.width)
            } else {
                dst.pixels[k]
            },
        ),
    }
}

/// Row-major cell coordinates and pixel indices name the same cell.
pub proof fn lemma_painted_cell(dst: ImageModel, src: ImageModel, px: int, py: int, x: int, y: int)
    requires
        dst.wf(),
        0 <= x < dst.width,
        0 <= y < dst.height,
    ensures
        painted(dst, src, px, py).px(x, y) == painted_px(dst, src, px, py, x, y),
{
    let k = y * dst.width + x;
    assert(0 <= k < dst.width * dst.height) by (nonlinear_arith)
        requires
            0 <= x < dst.width,
            0 <= y < dst.height,
            k == y * dst.width + x,
    ;
    vstd::arithmetic::div_mod::lemma_fundamental_div_mod_converse(k, dst.width, y, x);
}

/// Every pixel index of a well-formed image names the cell at column
/// `k % width`, row `k / width`.
pub proof fn lemma_cell_of_index(m: ImageModel, k: int)
    requires
        m.wf(),
        m.width > 0,
        0 <= k < m.pixels.len(),
    ensures
        0 <= k % m.width < m.width,
        0 <= k / m.width < m.height,
        m.px(k % m.width, k / m.width) == m.pixels[k],
{
    vstd::arithmetic::div_mod::lemma_mod_bound(k, m.width);
    vstd::arithmetic::div_mod::lemma_fundamental_div_mod(k, m.width);
    assert(0 <= k / m.width < m.height) by (nonlinear_arith)
        requires
            m.width > 0,
            m.height >= 0,
            0 <= k < m.width * m.height,
            k == m.width * (k / m.width) + (k % m.width),
            0 <= k % m.width < m.width,
    ;
    assert((k / m.width) * m.width + (k % m.width) == k) by (nonlinear_arith)
        requires
            k == m.width * (k / m.width) + (k % m.width),
    ;
}

/// The bytes of a pixel sequence, four per pixel, channel order r, g, b, a.
pub open spec fn raw_of(pixels: Seq<Color>) -> Seq<u8> {
    Seq::new(
        pixels.len() * 4,
        |i: int| {
            let p = pixels[i / 4];
            if i % 4 == 0 {
                p.r
            } else if i % 4 == 1 {
                p.g
            } else if i % 4 == 2 {
                p.b
            } else {
                p.a
            }
        },
    )
}

/// The pixel sequence read out of raw bytes, four per pixel.
pub open spec fn pixels_of_raw(raw: Seq<u8>) -> Seq<Color> {
    Seq::new(
        raw.len() / 4,
        |i: int| Color { r: raw[4 * i], g: raw[4 * i + 1], b: raw[4 * i + 2], a: raw[4 * i + 3] },
    )
}

/// An owned rectangular pixel grid.
pub struct Image {
    width: u32,
    height: u32,
    pixels: Vec<Color>,
}

impl View for Image {
    type V = ImageModel;

    closed spec fn view(&self) -> ImageModel {
        ImageModel { width: self.width as int, height: self.height as int, pixels: self.pixels@ }
    }
}

impl Image {
    /// The stored grid matches the stated extents.
    pub open spec fn wf(self) -> bool {
        self@.wf()
    }

    pub fn width(&self) -> (r: u32)
        ensures
            r as int == self@.width,
    {
        self.width
    }

    pub fn height(&self) -> (r: u32)
        ensures
            r as int == self@.height,
    {
        self.height
    }

    /// The number of cells in the grid; as a machine word, it witnesses that
    /// the product of the extents fits in `usize`.
    pub fn pixel_count(&self) -> (n: usize)
        requires
            self.wf(),
        ensures
            n as int == self@.width * self@.height,
    {
        self.pixels.len()
    }

    /// Reads the pixel of the cell at column `x`, row `y`.
    pub fn get_pixel(&self, x: u32, y: u32) -> (res: Color)
        requires
            self.wf(),
            (x as int) < self@.width,
            (y as int) < self@.height,
        ensures
            res == self@.px(x as int, y as int),
    {
        let n: usize = self.pixels.len();
        proof {
            assert(0 <= y as int * self@.width && y as int * self@.width + (x as int)
                < self@.width * self@.height) by (nonlinear_arith)
                requires
                    0 <= (x as int) < self@.width,
                    0 <= (y as int) < self@.height,
            ;
        }
        let idx64: u64 = (y as u64) * (self.width as u64) + (x as u64);
        let idx: usize = idx64 as usize;
        self.pixels[idx]
    }

    /// Overwrites the pixel of the cell at column `x`, row `y`.
    fn set_pixel(&mut self, x: u32, y: u32, c: Color)
        requires
            old(self).wf(),
            (x as int) < old(self)@.width,
            (y as int) < old(self)@.height,
        ensures
            final(self).wf(),
            final(self)@.width == old(self)@.width,
            final(self)@.height == old(self)@.height,
            final(self)@.pixels == old(self)@.pixels.update(
                y as int * old(self)@.width + x as int,
                c,
            ),
    {
        let n: usize = self.pixels.len();
        proof {
            assert(0 <= y as int * self@.width && y as int * self@.width + (x as int)
                < self@.width * self@.height) by (nonlinear_arith)
                requires
                    0 <= (x as int) < self@.width,
                    0 <= (y as int) < self@.height,
            ;
        }
        let idx64: u64 = (y as u64) * (self.width as u64) + (x as u64);
        let idx: usize = idx64 as usize;
        self.pixels[idx] = c;
    }

    /// Allocates a canvas of the given extents with every pixel set to
    /// `color`; with its alpha channel kept, a transparent background is
    /// legal and meaningful.
    pub fn from_pixel(width: u32, height: u32, color: Color) -> (res: Image)
        requires
            width as int * height as int <= usize::MAX as int,
        ensures
            res.wf(),
            res@ =~= solid(width as int, height as int, color),
    {
        proof {
            assert(width as int * height as int >= 0) by (nonlinear_arith)
                requires
                    width as int >= 0,
                    height as int >= 0,
            ;
        }
        let total: usize = (width as usize) * (height as usize);
        let mut pixels: Vec<Color> = Vec::new();
        while pixels.len() < total
            invariant
                pixels@.len() <= total,
                forall|k: int| 0 <= k < pixels@.len() ==> pixels@[k] == color,
            decreases total - pixels@.len(),
        {
            pixels.push(color);
        }
        Image { width, height, pixels }
    }

    /// Builds an image from raw bytes, four per pixel, row-major.
    pub fn from_raw(width: u32, height: u32, raw: &Vec<u8>) -> (res: Image)
        requires
            raw@.len() == 4 * (width as int) * (height as int),
        ensures
            res.wf(),
            res@.width == width as int,
            res@.height == height as int,
            res@.pixels =~= pixels_of_raw(raw@),
    {
        proof {
            assert(width as int * height as int >= 0 && (4 * (width as int)) * (height as int)
                == 4 * (width as int * height as int)) by (nonlinear_arith)
                requires
                    width as int >= 0,
                    height as int >= 0,
            ;
        }
        let raw_len: usize = raw.len();
        let total: usize = raw_len / 4;
        let mut pixels: Vec<Color> = Vec::new();
        let mut i: usize = 0;
        while i < total
            invariant
                raw@.len() == raw_len,
                raw@.len() == 4 * total,
                i <= total,
                pixels@.len() == i,
                forall|k: int| 0 <= k < i ==> pixels@[k] == pixels_of_raw(raw@)[k],
            decreases total - i,
        {
            let c = Color {
                r: raw[4 * i],
                g: raw[4 * i + 1],
                b: raw[4 * i + 2],
                a: raw[4 * i + 3],
            };
            pixels.push(c);
            i += 1;
        }
        proof {
            assert((width as int * height as int) * 4 == 4 * (width as int) * (height as int))
                by (nonlinear_arith)
            ;
        }
        Image { width, height, pixels }
    }

    /// Flattens the grid into raw bytes, four per pixel, row-major.
    pub fn to_raw(&self) -> (res: Vec<u8>)
        ensures
            res@ =~= raw_of(self@.pixels),
    {
        let n = self.pixels.len();
        let mut out: Vec<u8> = Vec::new();
        let mut i: usize = 0;
        while i < n
            invariant
                n == self@.pixels.len(),
                i <= n,
                out@.len() == 4 * i,
                forall|m: int| 0 <= m < 4 * i ==> out@[m] == raw_of(self@.pixels)[m],
            decreases n - i,
        {
            let p = self.pixels[i];
            out.push(p.r);
            out.push(p.g);
            out.push(p.b);
            out.push(p.a);
            proof {
                let pix = self@.pixels;
                assert forall|m: int| 4 * i <= m < 4 * (i + 1) implies out@[m] == raw_of(pix)[m] by {
                    vstd::arithmetic::div_mod::lemma_fundamental_div_mod_converse(
                        m,
                        4,
                        i as int,
                        m - 4 * i,
                    );
                }
            }
            i += 1;
        }
        out
    }

    /// Paints `src` onto this image with its top-left corner at `(px, py)`,
    /// blending each covered cell and clipping whatever falls outside.
    pub fn paint(&mut self, src: &Image, px: i64, py: i64)
        requires
            old(self).wf(),
            src.wf(),
        ensures
            final(self).wf(),
            final(self)@ =~= painted(old(self)@, src@, px as int, py as int),
    {
        let w: u32 = self.width;
        let h: u32 = self.height;
        let ghost target = painted(old(self)@, src@, px as int, py as int);
        let mut y: u32 = 0;
        while y < h
            invariant
                old(self).wf(),
                src.wf(),
                self.wf(),
                w as int == old(self)@.width,
                h as int == old(self)@.height,
                self@.width == old(self)@.width,
                self@.height == old(self)@.height,
                self@.pixels.len() == old(self)@.pixels.len(),
                y <= h,
                target == painted(old(self)@, src@, px as int, py as int),
                forall|k: int|
                    0 <= k < y as int * w as int ==> self@.pixels[k] == target.pixels[k],
                forall|k: int|
                    y as int * w as int <= k < self@.pixels.len() ==> self@.pixels[k]
                        == old(self)@.pixels[k],
            decreases h - y,
        {
            let mut x: u32 = 0;
            while x < w
                invariant
                    old(self).wf(),
                    src.wf(),
                    self.wf(),
                    w as int == old(self)@.width,
                    h as int == old(self)@.height,
                    self@.width == old(self)@.width,
                    self@.height == old(self)@.height,
                    self@.pixels.len() == old(self)@.pixels.len(),
                    y < h,
                    x <= w,
                    target == painted(old(self)@, src@, px as int, py as int),
                    forall|k: int|
                        0 <= k < y as int * w as int + x as int ==> self@.pixels[k]
                            == target.pixels[k],
                    forall|k: int|
                        y as int * w as int + x as int <= k < self@.pixels.len()
                            ==> self@.pixels[k] == old(self)@.pixels[k],
                decreases w - x,
            {
                let ghost k = y as int * w as int + x as int;
                proof {
                    assert(0 <= k < w as int * h as int) by (nonlinear_arith)
                        requires
                            0 <= (x as int) < w as int,
                            0 <= (y as int) < h as int,
                            k == y as int * w as int + x as int,
                    ;
                    vstd::arithmetic::div_mod::lemma_fundamental_div_mod_converse(
                        k,
                        w as int,
                        y as int,
                        x as int,
                    );
                }
                let xi: i128 = x as i128;
                let yi: i128 = y as i128;
                let pxi: i128 = px as i128;
                let pyi: i128 = py as i128;
                if xi >= pxi && xi - pxi < src.width as i128 && yi >= pyi && yi - pyi
                    < src.height as i128 {
                    let sx: u32 = (xi - pxi) as u32;
                    let sy: u32 = (yi - pyi) as u32;
                    let s = src.get_pixel(sx, sy);
                    let d = self.get_pixel(x, y);
                    let blended = blend_pixel(d, s);
                    self.set_pixel(x, y, blended);
                }
                x += 1;
            }
            proof {
                assert(y as int * w as int + w as int == (y as int + 1) * (w as int))
                    by (nonlinear_arith)
                ;
            }
            y += 1;
        }
        proof {
            assert(h as int * w as int == w as int * h as int) by (nonlinear_arith);
        }
    }
}

} // verus!
