//! The resize and offset directives, the boundary that validates their
//! loosely-tagged descriptors, and the arithmetic that turns a directive into
//! new dimensions or a top-left pixel position.

use vstd::prelude::*;
use crate::CompositeError;
use crate::num::{clamp_i64, clamp_u32, trunc_div, trunc_div_clamp_i64, scale_extent, aspect_extent,
    lemma_mul_bound, Fraction};

verus! {

/// How the product image is resized before it is placed.
#[derive(Clone, Copy, Debug, PartialEq, Eq, Structural)]
pub enum ResizeMode {
    /// The exact result width; the height follows the original aspect ratio,
    /// truncated.
    Width(u32),
    /// The exact result height; the width follows the original aspect ratio,
    /// truncated.
    Height(u32),
    /// Both dimensions multiplied by an exact rational factor, truncated.
    Scale(Fraction),
}

impl ResizeMode {
    /// Any fraction carried by the mode has a positive denominator.
    pub open spec fn wf(self) -> bool {
        match self {
            ResizeMode::Scale(f) => f.wf(),
            _ => true,
        }
    }
}

/// Where the product image is placed on the canvas.
#[derive(Clone, Copy, Debug, PartialEq, Eq, Structural)]
pub enum OffsetMode {
    /// The given pixel is the centre point of the placed element; the
    /// position may be negative or beyond the canvas.
    Pixel(i64, i64),
    /// A canvas-relative point, in percent of the canvas extents, again
    /// taken as the centre point of the placed element.
    Percent(Fraction, Fraction),
    /// Centred, with floor-at-zero subtraction: the element is never pushed
    /// off the top or left edge.
    Center,
}

impl OffsetMode {
    /// Any fractions carried by the mode have positive denominators.
    pub open spec fn wf(self) -> bool {
        match self {
            OffsetMode::Percent(px, py) => px.wf() && py.wf(),
            _ => true,
        }
    }
}

/// One axis of the `Center` offset: floor division of the spare room, and
/// zero when the element is larger than the canvas.
pub open spec fn center_coord(canvas: int, elem: int) -> int {
    if elem > canvas {
        0
    } else {
        (canvas - elem) / 2
    }
}

/// One axis of the `Pixel` offset: the given coordinate is the element's
/// centre, so half the element extent is subtracted, saturating at the `i64`
/// range.
pub open spec fn pixel_coord(p: int, elem: int) -> int {
    clamp_i64(p - elem / 2)
}

/// One axis of the `Percent` offset: the canvas extent scaled by the exact
/// percentage, minus half the element extent, truncated toward zero at the
/// end and saturated into `i64`.  As a single ratio:
/// `canvas * num / (100 * den) - elem / 2 == (2 * canvas * num - 100 * den * elem) / (200 * den)`.
pub open spec fn percent_coord(canvas: int, p: Fraction, elem: int) -> int
    recommends
        p.wf(),
{
    clamp_i64(trunc_div(2 * canvas * p.num - 100 * p.den * elem, 200 * p.den))
}

/// The top-left position at which an element of extents
/// `(elem_w, elem_h)` is painted on a canvas of extents `(canvas_w, canvas_h)`.
pub open spec fn position_of(
    offset: OffsetMode,
    elem_w: int,
    elem_h: int,
    canvas_w: int,
    canvas_h: int,
) -> (int, int) {
    match offset {
        OffsetMode::Pixel(x, y) => (pixel_coord(x as int, elem_w), pixel_coord(y as int, elem_h)),
        OffsetMode::Percent(px, py) => (
            percent_coord(canvas_w, px, elem_w),
            percent_coord(canvas_h, py, elem_h),
        ),
        OffsetMode::Center => (center_coord(canvas_w, elem_w), center_coord(canvas_h, elem_h)),
    }
}

/// One axis of `Center`, in executable code.
fn center_axis(canvas: u32, elem: u32) -> (r: i64)
    ensures
        r as int == center_coord(canvas as int, elem as int),
{
    if elem > canvas {
        0
    } else {
        ((canvas - elem) / 2) as i64
    }
}

/// One axis of `Pixel`, in executable code.
fn pixel_axis(p: i64, elem: u32) -> (r: i64)
    ensures
        r as int == pixel_coord(p as int, elem as int),
{
    let half: i64 = (elem / 2) as i64;
    if p >= i64::MIN + half {
        p - half
    } else {
        i64::MIN
    }
}

/// One axis of `Percent`, in executable code.
fn percent_axis(canvas: u32, p: Fraction, elem: u32) -> (r: i64)
    requires
        p.wf(),
    ensures
        r as int == percent_coord(canvas as int, p, elem as int),
{
    let c: i128 = canvas as i128;
    let e: i128 = elem as i128;
    let num: i128 = p.num as i128;
    let den: i128 = p.den as i128;
    proof {
        lemma_mul_bound(
            2 * c as int,
            num as int,
            2 * 0xffff_ffffint,
            0x8000_0000_0000_0000int,
        );
        lemma_mul_bound(
            100 * den as int,
            e as int,
            100 * 0x8000_0000_0000_0000int,
            0xffff_ffffint,
        );
    }
    let numer: i128 = 2 * c * num - 100 * den * e;
    let denom: i128 = 200 * den;
    trunc_div_clamp_i64(numer, denom)
}

/// Produces the top-left pixel coordinate at which an element of size
/// `extra_size` is painted onto a canvas of size `base_size`, under the given
/// offset directive.  A pure function: out-of-bounds positions are legal and
/// are clipped later, during painting.
pub fn calculate_position(offset: OffsetMode, extra_size: (u32, u32), base_size: (u32, u32)) -> (r: (
    i64,
    i64,
))
    requires
        offset.wf(),
    ensures
        (r.0 as int, r.1 as int) == position_of(
            offset,
            extra_size.0 as int,
            extra_size.1 as int,
            base_size.0 as int,
            base_size.1 as int,
        ),
{
    match offset {
        OffsetMode::Pixel(x, y) => (pixel_axis(x, extra_size.0), pixel_axis(y, extra_size.1)),
        OffsetMode::Percent(px, py) => (
            percent_axis(base_size.0, px, extra_size.0),
            percent_axis(base_size.1, py, extra_size.1),
        ),
        OffsetMode::Center => (
            center_axis(base_size.0, extra_size.0),
            center_axis(base_size.1, extra_size.1),
        ),
    }
}

/// The extent derived from the other axis when the aspect ratio is kept:
/// `floor(extent * target / source)`, capped at the `u32` range.  A source
/// extent of zero has no aspect ratio: the quotient is taken as infinite,
/// saturating to the top of the range when both factors are positive and to
/// zero otherwise.
pub open spec fn aspect_dim(extent: int, target: int, source: int) -> int {
    if source >= 1 {
        clamp_u32(extent * target / source)
    } else if extent > 0 && target > 0 {
        u32::MAX as int
    } else {
        0
    }
}

/// One dimension scaled by an exact rational factor:
/// `floor(extent * num / den)`, clamped into the `u32` range as a saturating
/// cast would.
pub open spec fn scale_dim(extent: int, f: Fraction) -> int
    recommends
        f.wf(),
{
    clamp_u32(extent * f.num as int / f.den as int)
}

/// The dimensions a resize directive produces from original dimensions
/// `(ow, oh)`.
pub open spec fn resize_dims(mode: ResizeMode, ow: int, oh: int) -> (int, int) {
    match mode {
        ResizeMode::Width(t) => (t as int, aspect_dim(oh, t as int, ow)),
        ResizeMode::Height(t) => (aspect_dim(ow, t as int, oh), t as int),
        ResizeMode::Scale(f) => (scale_dim(ow, f), scale_dim(oh, f)),
    }
}

/// Computes [`resize_dims`] in executable code.
pub fn resize_dimensions(mode: ResizeMode, ow: u32, oh: u32) -> (r: (u32, u32))
    requires
        mode.wf(),
    ensures
        (r.0 as int, r.1 as int) == resize_dims(mode, ow as int, oh as int),
{
    match mode {
        ResizeMode::Width(t) => {
            let nh: u32 = if ow >= 1 {
                aspect_extent(oh, t, ow)
            } else if oh > 0 && t > 0 {
                u32::MAX
            } else {
                0
            };
            (t, nh)
        },
        ResizeMode::Height(t) => {
            let nw: u32 = if oh >= 1 {
                aspect_extent(ow, t, oh)
            } else if ow > 0 && t > 0 {
                u32::MAX
            } else {
                0
            };
            (nw, t)
        },
        ResizeMode::Scale(f) => (scale_extent(ow, f.num, f.den), scale_extent(oh, f.num, f.den)),
    }
}

/// A resize descriptor as it crosses the boundary: a tag string and the
/// value read for it, a whole number for `Width` and `Height`, a rational
/// factor for `Scale`.
pub struct ResizeDescriptor {
    pub tag: String,
    pub whole: Option<u32>,
    pub factor: Option<Fraction>,
}

/// An offset descriptor as it crosses the boundary: a tag string and the
/// value pair read for it, whole pixels for `Pixel`, rational percentages
/// for `Percent`; `Center` carries no value.
pub struct OffsetDescriptor {
    pub tag: String,
    pub pixel: Option<(i64, i64)>,
    pub percent: Option<(Fraction, Fraction)>,
}

/// The caller-supplied options of one composition: the background colour
/// bytes and the two optional mode descriptors.
pub struct BuildCompositedImageOptions {
    pub background_color: Vec<u8>,
    pub resize_mode: Option<ResizeDescriptor>,
    pub offset_mode: Option<OffsetDescriptor>,
}

/// The resize directive a descriptor denotes: `None` for an unrecognised
/// tag, a missing value or a factor with a non-positive denominator, and
/// otherwise the directive (itself optional, as an absent descriptor means
/// no resize).
pub open spec fn resize_mode_of(d: Option<ResizeDescriptor>) -> Option<Option<ResizeMode>> {
    match d {
        None => Some(None),
        Some(d) => if d.tag@ == "Width"@ {
            match d.whole {
                Some(v) => Some(Some(ResizeMode::Width(v))),
                None => None,
            }
        } else if d.tag@ == "Height"@ {
            match d.whole {
                Some(v) => Some(Some(ResizeMode::Height(v))),
                None => None,
            }
        } else if d.tag@ == "Scale"@ {
            match d.factor {
                Some(f) => if f.wf() {
                    Some(Some(ResizeMode::Scale(f)))
                } else {
                    None
                },
                None => None,
            }
        } else {
            None
        },
    }
}

/// The offset directive a descriptor denotes: `None` for an unrecognised
/// tag, a missing value or a percentage with a non-positive denominator; an
/// absent descriptor means `Center`.
pub open spec fn offset_mode_of(d: Option<OffsetDescriptor>) -> Option<OffsetMode> {
    match d {
        None => Some(OffsetMode::Center),
        Some(d) => if d.tag@ == "Pixel"@ {
            match d.pixel {
                Some(v) => Some(OffsetMode::Pixel(v.0, v.1)),
                None => None,
            }
        } else if d.tag@ == "Percent"@ {
            match d.percent {
                Some(v) => if v.0.wf() && v.1.wf() {
                    Some(OffsetMode::Percent(v.0, v.1))
                } else {
                    None
                },
                None => None,
            }
        } else if d.tag@ == "Center"@ {
            Some(OffsetMode::Center)
        } else {
            None
        },
    }
}

impl BuildCompositedImageOptions {
    /// Validates the resize descriptor once, at the boundary: an
    /// unrecognised tag or a missing or malformed value is an
    /// `InvalidArgument`; an absent descriptor means no resize.
    pub fn get_resize_mode(&self) -> (r: Result<Option<ResizeMode>, CompositeError>)
        ensures
            match resize_mode_of(self.resize_mode) {
                Some(m) => r == Ok::<Option<ResizeMode>, CompositeError>(m),
                None => r == Err::<Option<ResizeMode>, CompositeError>(
                    CompositeError::InvalidArgument,
                ),
            },
            r matches Ok(Some(m)) ==> m.wf(),
    {
        match &self.resize_mode {
            None => Ok(None),
            Some(d) => {
                if d.tag == "Width".to_owned() {
                    match d.whole {
                        Some(v) => Ok(Some(ResizeMode::Width(v))),
                        None => Err(CompositeError::InvalidArgument),
                    }
                } else if d.tag == "Height".to_owned() {
                    match d.whole {
                        Some(v) => Ok(Some(ResizeMode::Height(v))),
                        None => Err(CompositeError::InvalidArgument),
                    }
                } else if d.tag == "Scale".to_owned() {
                    match d.factor {
                        Some(f) => if f.den >= 1 {
                            Ok(Some(ResizeMode::Scale(f)))
                        } else {
                            Err(CompositeError::InvalidArgument)
                        },
                        None => Err(CompositeError::InvalidArgument),
                    }
                } else {
                    Err(CompositeError::InvalidArgument)
                }
            },
        }
    }

    /// Validates the offset descriptor once, at the boundary: an
    /// unrecognised tag or a missing or malformed value pair is an
    /// `InvalidArgument`; an absent descriptor means `Center`.
    pub fn get_offset_mode(&self) -> (r: Result<OffsetMode, CompositeError>)
        ensures
            match offset_mode_of(self.offset_mode) {
                Some(m) => r == Ok::<OffsetMode, CompositeError>(m),
                None => r == Err::<OffsetMode, CompositeError>(CompositeError::InvalidArgument),
            },
            r matches Ok(m) ==> m.wf(),
    {
        match &self.offset_mode {
            None => Ok(OffsetMode::Center),
            Some(d) => {
                if d.tag == "Pixel".to_owned() {
                    match d.pixel {
                        Some(v) => Ok(OffsetMode::Pixel(v.0, v.1)),
                        None => Err(CompositeError::InvalidArgument),
                    }
                } else if d.tag == "Percent".to_owned() {
                    match d.percent {
                        Some(v) => if v.0.den >= 1 && v.1.den >= 1 {
                            Ok(OffsetMode::Percent(v.0, v.1))
                        } else {
                            Err(CompositeError::InvalidArgument)
                        },
                        None => Err(CompositeError::InvalidArgument),
                    }
                } else if d.tag == "Center".to_owned() {
                    Ok(OffsetMode::Center)
                } else {
                    Err(CompositeError::InvalidArgument)
                }
            },
        }
    }
}

} // verus!
