//! The library's general guarantees, each proved once and for all inputs:
//! the resize-dimension formulas, the positioning formulas, and what the
//! composition shows where the overlay is opaque or transparent.

use vstd::prelude::*;
use crate::compose::{composed, composition_result};
use crate::modes::{center_coord, position_of, resize_dims, OffsetMode, ResizeMode};
use crate::num::Fraction;
use crate::raster::{lemma_blend_extremes, lemma_cell_of_index, lemma_painted_cell, painted,
    painted_px, solid, Color, ImageModel};

verus! {

/// A `Width(w)` resize of an image with a positive width yields exactly
/// width `w`, and height `floor(original_height * w / original_width)`
/// whenever that quotient lies in the `u32` range.
pub proof fn lemma_width_resize_dims(t: u32, ow: int, oh: int)
    requires
        ow >= 1,
        oh >= 0,
        oh * (t as int) / ow <= u32::MAX,
    ensures
        resize_dims(ResizeMode::Width(t), ow, oh) == (t as int, oh * (t as int) / ow),
{
    assert(oh * (t as int) >= 0) by (nonlinear_arith)
        requires
            oh >= 0,
            t as int >= 0,
    ;
    assert(oh * (t as int) / ow >= 0) by (nonlinear_arith)
        requires
            oh * (t as int) >= 0,
            ow >= 1,
    ;
}

/// A `Height(h)` resize of an image with a positive height yields exactly
/// height `h`, and width `floor(original_width * h / original_height)`
/// whenever that quotient lies in the `u32` range.
pub proof fn lemma_height_resize_dims(t: u32, ow: int, oh: int)
    requires
        oh >= 1,
        ow >= 0,
        ow * (t as int) / oh <= u32::MAX,
    ensures
        resize_dims(ResizeMode::Height(t), ow, oh) == (ow * (t as int) / oh, t as int),
{
    assert(ow * (t as int) >= 0) by (nonlinear_arith)
        requires
            ow >= 0,
            t as int >= 0,
    ;
    assert(ow * (t as int) / oh >= 0) by (nonlinear_arith)
        requires
            ow * (t as int) >= 0,
            oh >= 1,
    ;
}

/// A `Scale(f)` resize with a positive factor yields
/// `floor(original_dim * f)` on both axes, whenever those values lie in the
/// `u32` range.
pub proof fn lemma_scale_resize_dims(f: Fraction, ow: int, oh: int)
    requires
        f.wf(),
        f.num as int >= 1,
        ow >= 0,
        oh >= 0,
        ow * f.num as int / f.den as int <= u32::MAX,
        oh * f.num as int / f.den as int <= u32::MAX,
    ensures
        resize_dims(ResizeMode::Scale(f), ow, oh) == (ow * f.num as int / f.den as int, oh * f.num as int / f.den as int),
{
    assert(ow * f.num as int >= 0 && oh * f.num as int >= 0) by (nonlinear_arith)
        requires
            ow >= 0,
            oh >= 0,
            f.num as int >= 1,
    ;
    assert(ow * f.num as int / f.den as int >= 0 && oh * f.num as int / f.den as int >= 0) by (nonlinear_arith)
        requires
            ow * f.num as int >= 0,
            oh * f.num as int >= 0,
            f.den as int >= 1,
    ;
}

/// The `Center` offset floors the spare room on each axis, and an element
/// larger than the canvas on an axis sits at zero there, never at a
/// negative coordinate.
pub proof fn lemma_center_offset(elem_w: int, elem_h: int, canvas_w: int, canvas_h: int)
    ensures
        elem_w <= canvas_w ==> position_of(OffsetMode::Center, elem_w, elem_h, canvas_w, canvas_h).0
            == (canvas_w - elem_w) / 2,
        elem_w > canvas_w ==> position_of(OffsetMode::Center, elem_w, elem_h, canvas_w, canvas_h).0
            == 0,
        elem_h <= canvas_h ==> position_of(OffsetMode::Center, elem_w, elem_h, canvas_w, canvas_h).1
            == (canvas_h - elem_h) / 2,
        elem_h > canvas_h ==> position_of(OffsetMode::Center, elem_w, elem_h, canvas_w, canvas_h).1
            == 0,
{
}

/// The `Pixel(x, y)` offset takes the given point as the element's centre:
/// the top-left corner lands at `(x - elem_w / 2, y - elem_h / 2)`, whenever
/// that value lies in the `i64` range.
pub proof fn lemma_pixel_offset(x: i64, y: i64, elem_w: int, elem_h: int, canvas_w: int, canvas_h: int)
    requires
        0 <= elem_w,
        0 <= elem_h,
        i64::MIN <= x - elem_w / 2,
        i64::MIN <= y - elem_h / 2,
    ensures
        position_of(OffsetMode::Pixel(x, y), elem_w, elem_h, canvas_w, canvas_h) == (
            x - elem_w / 2,
            y - elem_h / 2,
        ),
{
}

/// The composition always has exactly the overlay's extents, whatever the
/// product image's size or the modes chosen.
pub proof fn lemma_composition_extents(
    product: ImageModel,
    overlay: ImageModel,
    opts: crate::modes::BuildCompositedImageOptions,
)
    ensures
        composition_result(product, overlay, opts).width == overlay.width,
        composition_result(product, overlay, opts).height == overlay.height,
{
}

/// A fully opaque overlay with the canvas's own extents determines the
/// output alone: after composition the canvas is the overlay image,
/// whatever the product's content or position.
pub proof fn lemma_opaque_overlay(
    bg: ImageModel,
    product: ImageModel,
    overlay: ImageModel,
    offset: OffsetMode,
)
    requires
        bg.wf(),
        overlay.wf(),
        bg.width == overlay.width,
        bg.height == overlay.height,
        forall|x: int, y: int|
            0 <= x < overlay.width && 0 <= y < overlay.height ==> (#[trigger] overlay.px(x, y)).a
                == 255,
    ensures
        composed(bg, product, overlay, offset) =~= overlay,
{
    let pos = position_of(offset, product.width, product.height, bg.width, bg.height);
    let mid = painted(bg, product, pos.0, pos.1);
    let fin = painted(mid, overlay, 0, 0);
    assert(center_coord(bg.width, overlay.width) == 0);
    assert(center_coord(bg.height, overlay.height) == 0);
    assert(mid.wf());
    assert forall|k: int| 0 <= k < fin.pixels.len() implies fin.pixels[k] == overlay.pixels[k] by {
        assert(bg.width > 0 && bg.height > 0) by (nonlinear_arith)
            requires
                bg.width >= 0,
                bg.height >= 0,
                0 <= k < bg.width * bg.height,
        ;
        lemma_cell_of_index(mid, k);
        let x = k % mid.width;
        let y = k / mid.width;
        assert(fin.pixels[k] == painted_px(mid, overlay, 0, 0, x, y));
        assert(overlay.covers(0, 0, x, y));
        lemma_blend_extremes(mid.px(x, y), overlay.px(x, y));
        lemma_cell_of_index(overlay, k);
    }
    assert(fin.pixels =~= overlay.pixels);
}

/// With a fully transparent background colour and a fully opaque product
/// placed fully within the canvas, every cell where the overlay is
/// transparent shows the product where the product lies and the untouched
/// background colour, alpha zero included, everywhere else.
pub proof fn lemma_transparent_background(
    c: Color,
    product: ImageModel,
    overlay: ImageModel,
    offset: OffsetMode,
    x: int,
    y: int,
)
    requires
        product.wf(),
        overlay.wf(),
        c.a == 0,
        forall|i: int, j: int|
            0 <= i < product.width && 0 <= j < product.height ==> (#[trigger] product.px(i, j)).a
                == 255,
        0 <= position_of(offset, product.width, product.height, overlay.width, overlay.height).0,
        position_of(offset, product.width, product.height, overlay.width, overlay.height).0
            + product.width <= overlay.width,
        0 <= position_of(offset, product.width, product.height, overlay.width, overlay.height).1,
        position_of(offset, product.width, product.height, overlay.width, overlay.height).1
            + product.height <= overlay.height,
        0 <= x < overlay.width,
        0 <= y < overlay.height,
        overlay.px(x, y).a == 0,
    ensures
        ({
            let bg = solid(overlay.width, overlay.height, c);
            let pos = position_of(offset, product.width, product.height, overlay.width, overlay.height);
            let out = composed(bg, product, overlay, offset);
            &&& product.covers(pos.0, pos.1, x, y) ==> out.px(x, y) == product.px(
                x - pos.0,
                y - pos.1,
            )
            &&& !product.covers(pos.0, pos.1, x, y) ==> out.px(x, y) == c
        }),
{
    let bg = solid(overlay.width, overlay.height, c);
    let pos = position_of(offset, product.width, product.height, overlay.width, overlay.height);
    let mid = painted(bg, product, pos.0, pos.1);
    let out = painted(mid, overlay, 0, 0);
    assert(bg.wf());
    assert(center_coord(bg.width, overlay.width) == 0);
    assert(center_coord(bg.height, overlay.height) == 0);
    assert(mid.wf());
    lemma_painted_cell(mid, overlay, 0, 0, x, y);
    assert(overlay.covers(0, 0, x, y));
    lemma_blend_extremes(mid.px(x, y), overlay.px(x, y));
    assert(out.px(x, y) == mid.px(x, y));
    lemma_painted_cell(bg, product, pos.0, pos.1, x, y);
    if product.covers(pos.0, pos.1, x, y) {
        lemma_blend_extremes(bg.px(x, y), product.px(x - pos.0, y - pos.1));
    } else {
        assert(0 <= y * bg.width + x < bg.width * bg.height) by (nonlinear_arith)
            requires
                0 <= x < bg.width,
                0 <= y < bg.height,
        ;
        assert(bg.px(x, y) == c);
    }
}

} // verus!
