//! The decorative panel behind the primary quote: a part of the image that is
//! tinted and blurred, a blurred shadow behind it and two thin borders round it.
//!
//! The panel wraps the box of the quote's lines with a gap on every side. Gaps,
//! offsets and blurs are given for the original image and grow or shrink with
//! the image that is drawn on.

use crate::geometry::Rect;
use crate::raster::{blend, blended};
use crate::layout::{
    length_over, spec_clamp_i32, spec_clamp_u32, spec_div_toward_zero, Canvas, TextBox,
};
use vstd::prelude::*;

verus! {

/// A hollow rectangle: where its top-left corner is drawn, and its size.
#[derive(Clone, Copy, Debug, PartialEq, Eq, Structural)]
pub struct Outline {
    pub x: i32,
    pub y: i32,
    pub width: u32,
    pub height: u32,
}

/// Everything that is drawn for the panel, in the order in which it is drawn:
/// the shadow, the panel, the outer border, the inner border.
#[derive(Clone, Copy, Debug, PartialEq, Eq)]
pub struct PanelPlan {
    /// The part of the image that becomes the panel.
    pub panel: Rect,
    /// The colour laid over the panel before it is blurred.
    pub tint: [u8; 4],
    /// How far the panel is blurred, in thousandths of a pixel.
    pub panel_blur: u32,
    /// The size of the picture on which the shadow is drawn.
    pub shadow_size: (u32, u32),
    /// The hollow rectangle drawn on that picture.
    pub shadow_outline: Outline,
    /// The colour of the shadow.
    pub shadow_color: [u8; 4],
    /// How far the shadow is blurred, in thousandths of a pixel.
    pub shadow_blur: u64,
    /// Where the picture of the shadow is laid on the image.
    pub shadow_position: (i64, i64),
    /// The border just outside the panel.
    pub outer_border: Outline,
    /// The border on the panel's edge, drawn a little darker.
    pub inner_border: Outline,
    /// The colour that is blended into the border's colour to darken it.
    pub darkening: [u8; 4],
}

/// A length of `amount` pixels on the original, on an image whose extent is
/// `extent` where the original's is `original`, rounded down.
pub open spec fn spec_grown(amount: int, extent: int, original: int) -> int {
    (amount * extent) / original
}

/// The left edge of the panel: the box of the quote is centred, and a gap of
/// 30 pixels of the original lies between the edge and the box.
pub open spec fn spec_panel_x(canvas: Canvas, text_box: TextBox) -> u32 {
    spec_clamp_u32(
        spec_div_toward_zero(
            canvas.width * 1000 * canvas.original_width - (text_box.width * canvas.original_width
                + 60_000 * canvas.width),
            2000 * canvas.original_width,
        ),
    )
}

/// The top edge of the panel: a gap of 10 pixels of the original above the
/// height of the quote.
pub open spec fn spec_panel_y(canvas: Canvas, position: u32) -> u32 {
    spec_clamp_u32(
        spec_div_toward_zero(
            position * canvas.height - 10 * canvas.height,
            canvas.original_height as int,
        ),
    )
}

/// The width of the panel: the box and the gap on both sides.
pub open spec fn spec_panel_width(canvas: Canvas, text_box: TextBox) -> u32 {
    spec_clamp_u32(
        (text_box.width * canvas.original_width + 60_000 * canvas.width) / (1000
            * canvas.original_width),
    )
}

/// The height of the panel: the box and the gap above and below.
pub open spec fn spec_panel_height(canvas: Canvas, text_box: TextBox) -> u32 {
    spec_clamp_u32(
        (text_box.height * canvas.original_height + 20_000 * canvas.height) / (1000
            * canvas.original_height),
    )
}

/// The panel of a quote whose lines fill `text_box` and whose first line
/// stands at `position`.
pub open spec fn spec_panel(canvas: Canvas, position: u32, text_box: TextBox) -> Rect {
    Rect {
        x: spec_panel_x(canvas, text_box),
        y: spec_panel_y(canvas, position),
        width: spec_panel_width(canvas, text_box),
        height: spec_panel_height(canvas, text_box),
    }
}

/// Whether a panel is drawn at all: the quote has a width, the panel's corner
/// lies on the image, and the panel has a size.
pub open spec fn spec_panel_drawn(canvas: Canvas, position: u32, text_box: TextBox) -> bool {
    let panel = spec_panel(canvas, position, text_box);
    &&& text_box.width > 0
    &&& panel.x < canvas.width
    &&& panel.y < canvas.height
    &&& panel.width > 0
    &&& panel.height > 0
}

/// The plan of a panel that is drawn. The shadow is the panel's outline, 20
/// pixels of the original to the right and below, blurred by 5; the panel is
/// tinted and blurred by 15; the outer border lies one pixel of the original
/// outside the panel.
pub open spec fn spec_panel_plan(canvas: Canvas, position: u32, text_box: TextBox) -> PanelPlan {
    let panel = spec_panel(canvas, position, text_box);
    let dx = spec_grown(20, canvas.width as int, canvas.original_width as int);
    let dy = spec_grown(20, canvas.height as int, canvas.original_height as int);
    let rim = spec_grown(1, canvas.width as int, canvas.original_width as int);
    let rims = spec_clamp_u32(spec_grown(2, canvas.width as int, canvas.original_width as int));
    PanelPlan {
        panel,
        tint: [20u8, 22u8, 25u8, 80u8],
        panel_blur: 15_000,
        shadow_size: (
            spec_clamp_u32(
                panel.width + spec_clamp_u32(
                    spec_grown(40, canvas.width as int, canvas.original_width as int),
                ),
            ),
            spec_clamp_u32(
                panel.height + spec_clamp_u32(
                    spec_grown(40, canvas.height as int, canvas.original_height as int),
                ),
            ),
        ),
        shadow_outline: Outline {
            x: spec_clamp_i32(dx),
            y: spec_clamp_i32(dy),
            width: panel.width,
            height: panel.height,
        },
        shadow_color: [30u8, 30u8, 30u8, 255u8],
        shadow_blur: spec_grown(5000, canvas.width as int, canvas.original_width as int) as u64,
        shadow_position: ((panel.x - dx) as i64, (panel.y - dy) as i64),
        outer_border: Outline {
            x: spec_clamp_i32(panel.x - rim),
            y: spec_clamp_i32(panel.y - rim),
            width: spec_clamp_u32(panel.width + rims),
            height: spec_clamp_u32(panel.height + rims),
        },
        inner_border: Outline {
            x: spec_clamp_i32(panel.x as int),
            y: spec_clamp_i32(panel.y as int),
            width: panel.width,
            height: panel.height,
        },
        darkening: [0u8, 0u8, 0u8, 2u8],
    }
}

/// `amount` pixels of the original on an image of `extent`, rounded down.
fn grown(amount: u32, extent: u32, original: u32) -> (r: u64)
    requires
        original > 0,
        amount <= 5000,
    ensures
        r == spec_grown(amount as int, extent as int, original as int),
        r <= 5000 * 0xffff_ffff,
{
    proof {
        assert(0 <= (amount as int) * (extent as int) <= 5000 * 0xffff_ffff) by (nonlinear_arith)
            requires
                0 <= amount <= 5000,
                0 <= extent <= 0xffff_ffff,
        ;
        crate::geometry::lemma_floor_div((amount as int) * (extent as int), original as int);
        assert(((amount as int) * (extent as int)) / (original as int) <= (amount as int) * (
        extent as int)) by (nonlinear_arith)
            requires
                0 <= (amount as int) * (extent as int),
                0 < original as int,
                0 <= ((amount as int) * (extent as int)) / (original as int),
                (((amount as int) * (extent as int)) / (original as int)) * (original as int) <= (
                amount as int) * (extent as int),
        ;
    }
    (amount as u64 * extent as u64) / (original as u64)
}

/// The sum of two lengths, kept inside the range of a length in pixels.
fn lengthened(length: u32, by: u64) -> (r: u32)
    requires
        by <= 5000 * 0xffff_ffff,
    ensures
        r == spec_clamp_u32(length + spec_clamp_u32(by as int)),
{
    let by32: u32 = if by > 0xffff_ffff { 0xffff_ffff } else { by as u32 };
    let sum: u64 = length as u64 + by32 as u64;
    if sum > 0xffff_ffff {
        0xffff_ffff
    } else {
        sum as u32
    }
}

/// A signed value kept inside the range of a pixel coordinate.
fn coordinate(v: i64) -> (r: i32)
    ensures
        r == spec_clamp_i32(v as int),
{
    if v > 0x7fff_ffff {
        0x7fff_ffff
    } else if v < -0x8000_0000 {
        -0x8000_0000
    } else {
        v as i32
    }
}

/// Plans the panel behind a quote whose lines fill `text_box` and whose first
/// line stands at `position` on the original. No panel is drawn, and the quote
/// is drawn on the bare image, where the quote has no width, where the panel's
/// corner would lie beyond the image, or where the panel would have no size.
pub fn plan_panel(canvas: &Canvas, position: u32, text_box: TextBox) -> (r: Option<PanelPlan>)
    requires
        canvas.wf(),
    ensures
        r is Some == spec_panel_drawn(*canvas, position, text_box),
        r is Some ==> r->0 == spec_panel_plan(*canvas, position, text_box),
        r is Some ==> r->0.panel.x < canvas.width && r->0.panel.y < canvas.height
            && r->0.panel.width > 0 && r->0.panel.height > 0,
{
    if text_box.width == 0 {
        return None;
    }
    let width = canvas.width as u128;
    let height = canvas.height as u128;
    let original_width = canvas.original_width as u128;
    let original_height = canvas.original_height as u128;
    proof {
        assert(0 <= width * 1000 * original_width <= 0xffff_ffff * 1000 * 0xffff_ffff)
            by (nonlinear_arith)
            requires
                0 <= width <= 0xffff_ffff,
                0 <= original_width <= 0xffff_ffff,
        ;
        assert(0 <= (text_box.width as int) * original_width <= 0xffff_ffff * 0xffff_ffff)
            by (nonlinear_arith)
            requires
                0 <= text_box.width <= 0xffff_ffff,
                0 <= original_width <= 0xffff_ffff,
        ;
        assert(0 <= (position as int) * height <= 0xffff_ffff * 0xffff_ffff)
            by (nonlinear_arith)
            requires
                0 <= position <= 0xffff_ffff,
                0 <= height <= 0xffff_ffff,
        ;
        assert(0 <= (text_box.height as int) * original_height <= 0xffff_ffff_ffff_ffff
            * 0xffff_ffff) by (nonlinear_arith)
            requires
                0 <= text_box.height <= 0xffff_ffff_ffff_ffff,
                0 <= original_height <= 0xffff_ffff,
        ;
    }
    let boxed: u128 = text_box.width as u128 * original_width + 60_000 * width;
    let x = length_over(width * 1000 * original_width, boxed, 2000 * original_width);
    let y = length_over(position as u128 * height, 10 * height, original_height);
    let w = length_over(boxed, 0, 1000 * original_width);
    let h = length_over(
        text_box.height as u128 * original_height + 20_000 * height,
        0,
        1000 * original_height,
    );
    if x >= canvas.width || y >= canvas.height || w == 0 || h == 0 {
        return None;
    }
    let dx = grown(20, canvas.width, canvas.original_width);
    let dy = grown(20, canvas.height, canvas.original_height);
    let rim = grown(1, canvas.width, canvas.original_width);
    let rims = grown(2, canvas.width, canvas.original_width);
    let panel = Rect { x, y, width: w, height: h };
    Some(
        PanelPlan {
            panel,
            tint: [20, 22, 25, 80],
            panel_blur: 15_000,
            shadow_size: (
                lengthened(w, grown(40, canvas.width, canvas.original_width)),
                lengthened(h, grown(40, canvas.height, canvas.original_height)),
            ),
            shadow_outline: Outline {
                x: coordinate(dx as i64),
                y: coordinate(dy as i64),
                width: w,
                height: h,
            },
            shadow_color: [30, 30, 30, 255],
            shadow_blur: grown(5000, canvas.width, canvas.original_width),
            shadow_position: (x as i64 - dx as i64, y as i64 - dy as i64),
            outer_border: Outline {
                x: coordinate(x as i64 - rim as i64),
                y: coordinate(y as i64 - rim as i64),
                width: lengthened(w, rims),
                height: lengthened(h, rims),
            },
            inner_border: Outline {
                x: coordinate(x as i64),
                y: coordinate(y as i64),
                width: w,
                height: h,
            },
            darkening: [0, 0, 0, 2],
        },
    )
}

/// The colours of the two borders, from the colours in the four corners of
/// the blurred panel: the corners are laid over each other, top-left first,
/// then bottom-left, bottom-right and top-right, which gives the outer
/// border's colour; the inner border's is that colour under the darkening.
pub open spec fn spec_border_colors(
    top_left: Seq<u8>,
    bottom_left: Seq<u8>,
    bottom_right: Seq<u8>,
    top_right: Seq<u8>,
    darkening: Seq<u8>,
) -> (Seq<u8>, Seq<u8>) {
    let outer = blended(blended(blended(top_left, bottom_left), bottom_right), top_right);
    (outer, blended(outer, darkening))
}

/// The colours of the outer and of the inner border.
pub fn border_colors(
    top_left: [u8; 4],
    bottom_left: [u8; 4],
    bottom_right: [u8; 4],
    top_right: [u8; 4],
    darkening: [u8; 4],
) -> (r: ([u8; 4], [u8; 4]))
    ensures
        (r.0@, r.1@) == spec_border_colors(
            top_left@,
            bottom_left@,
            bottom_right@,
            top_right@,
            darkening@,
        ),
        top_right[3] == 255 ==> r.0@ == top_right@,
{
    let outer = blend(blend(blend(top_left, bottom_left), bottom_right), top_right);
    let inner = blend(outer, darkening);
    (outer, inner)
}

} // verus!
