//! Crops that keep a fixed aspect ratio, and the scaling of lengths between the
//! original image and a smaller working copy of it.

use crate::config::Config;
use vstd::prelude::*;

verus! {

/// An aspect ratio, width to height.
#[derive(Clone, Copy, Debug, PartialEq, Eq, Structural)]
pub struct AspectRatio {
    pub width: u32,
    pub height: u32,
}

impl AspectRatio {
    /// A ratio is usable when both of its sides are positive.
    pub open spec fn wf(&self) -> bool {
        self.width > 0 && self.height > 0
    }
}

/// A rectangle of pixels: its top-left corner and its size.
#[derive(Clone, Copy, Debug, PartialEq, Eq, Structural)]
pub struct Rect {
    pub x: u32,
    pub y: u32,
    pub width: u32,
    pub height: u32,
}

/// The part of a rectangle that lies on an image of `width` x `height`: the
/// corner is moved onto the image's edge where it lay beyond it, and the size
/// is cut to what is left of the image from there.
pub open spec fn spec_clamped(rect: Rect, width: u32, height: u32) -> Rect {
    let x = if rect.x < width { rect.x } else { width };
    let y = if rect.y < height { rect.y } else { height };
    Rect {
        x,
        y,
        width: if rect.width < width - x { rect.width } else { (width - x) as u32 },
        height: if rect.height < height - y { rect.height } else { (height - y) as u32 },
    }
}

/// The part of a rectangle that lies on an image of `width` x `height`.
pub fn clamped(rect: Rect, width: u32, height: u32) -> (r: Rect)
    ensures
        r == spec_clamped(rect, width, height),
        r.x + r.width <= width,
        r.y + r.height <= height,
        r.width <= rect.width,
        r.height <= rect.height,
{
    let x = if rect.x < width { rect.x } else { width };
    let y = if rect.y < height { rect.y } else { height };
    Rect {
        x,
        y,
        width: if rect.width < width - x { rect.width } else { width - x },
        height: if rect.height < height - y { rect.height } else { height - y },
    }
}

/// The width that belongs to `height` under the ratio `ratio_w : ratio_h`,
/// rounded down.
pub open spec fn spec_width_from_height(height: int, ratio_w: int, ratio_h: int) -> int {
    (ratio_w * height) / ratio_h
}

/// The height that belongs to `width` under the ratio `ratio_w : ratio_h`,
/// rounded down.
pub open spec fn spec_height_from_width(width: int, ratio_w: int, ratio_h: int) -> int {
    (ratio_h * width) / ratio_w
}

/// The largest size of the ratio `ratio_w : ratio_h` that fits into
/// `width` x `height`: where the image is too wide for its height the height is
/// kept and the width follows from it, otherwise the width is kept.
pub open spec fn spec_cropped_size(width: int, height: int, ratio_w: int, ratio_h: int) -> (
    int,
    int,
) {
    if width > spec_width_from_height(height, ratio_w, ratio_h) {
        (spec_width_from_height(height, ratio_w, ratio_h), height)
    } else {
        (width, spec_height_from_width(width, ratio_w, ratio_h))
    }
}

/// `value`, a length measured on an extent of `from`, carried over to an extent
/// of `to` and rounded down.
pub open spec fn spec_scale(value: int, from: int, to: int) -> int {
    (value * to) / from
}

/// The quotient of a natural by a positive number is the largest `q` with
/// `q * b <= a`, and it is not negative.
pub proof fn lemma_floor_div(a: int, b: int)
    requires
        0 <= a,
        0 < b,
    ensures
        0 <= a / b,
        (a / b) * b <= a,
        a < (a / b + 1) * b,
{
    vstd::arithmetic::div_mod::lemma_fundamental_div_mod(a, b);
    vstd::arithmetic::div_mod::lemma_mod_bound(a, b);
    vstd::arithmetic::div_mod::lemma_div_pos_is_pos(a, b);
    assert((a / b) * b == b * (a / b)) by (nonlinear_arith);
    assert((a / b + 1) * b == b * (a / b) + b) by (nonlinear_arith);
}

/// A quotient is at least `q` exactly when the numerator reaches `q` times the
/// divisor.
pub proof fn lemma_div_reaches(a: int, b: int, q: int)
    requires
        0 <= a,
        0 < b,
    ensures
        q <= a / b <==> q * b <= a,
{
    lemma_floor_div(a, b);
    if q <= a / b {
        assert(q * b <= (a / b) * b) by (nonlinear_arith)
            requires
                q <= a / b,
                0 < b,
        ;
    } else {
        assert(q * b >= (a / b + 1) * b) by (nonlinear_arith)
            requires
                q >= a / b + 1,
                0 < b,
        ;
    }
}

/// The cropped size lies inside the image and has the asked ratio up to the
/// rounding of one side: the cross products `w * ratio_h` and `h * ratio_w`
/// differ by less than one step of the side that was computed.
pub proof fn lemma_cropped_size_fits(width: int, height: int, ratio_w: int, ratio_h: int)
    requires
        0 <= width,
        0 <= height,
        0 < ratio_w,
        0 < ratio_h,
    ensures
        ({
            let (w, h) = spec_cropped_size(width, height, ratio_w, ratio_h);
            &&& 0 <= w <= width
            &&& 0 <= h <= height
            &&& -ratio_h < w * ratio_h - h * ratio_w < ratio_w
            &&& w == width || h == height
        }),
{
    let wide = spec_width_from_height(height, ratio_w, ratio_h);
    assert(0 <= ratio_w * height) by (nonlinear_arith)
        requires
            0 <= height,
            0 < ratio_w,
    ;
    assert(0 <= ratio_h * width) by (nonlinear_arith)
        requires
            0 <= width,
            0 < ratio_h,
    ;
    lemma_floor_div(ratio_w * height, ratio_h);
    lemma_floor_div(ratio_h * width, ratio_w);
    if width > wide {
        assert(wide * ratio_h - height * ratio_w == wide * ratio_h - ratio_w * height)
            by (nonlinear_arith);
        assert((wide + 1) * ratio_h == wide * ratio_h + ratio_h) by (nonlinear_arith);
    } else {
        let tall = spec_height_from_width(width, ratio_w, ratio_h);
        lemma_div_reaches(ratio_w * height, ratio_h, width);
        assert(width * ratio_h <= ratio_w * height);
        assert(ratio_h * width == width * ratio_h) by (nonlinear_arith);
        assert(height * ratio_w == ratio_w * height) by (nonlinear_arith);
        lemma_div_reaches(ratio_h * width, ratio_w, height + 1);
        assert((height + 1) * ratio_w == height * ratio_w + ratio_w) by (nonlinear_arith);
        assert(tall <= height);
        assert((tall + 1) * ratio_w == tall * ratio_w + ratio_w) by (nonlinear_arith);
    }
}

/// A width that does not exceed the cropped width has a height that does not
/// exceed the cropped height.
pub proof fn lemma_height_within_crop(
    limit: int,
    width: int,
    height: int,
    ratio_w: int,
    ratio_h: int,
)
    requires
        0 <= width,
        0 <= height,
        0 < ratio_w,
        0 < ratio_h,
        0 <= limit <= spec_cropped_size(width, height, ratio_w, ratio_h).0,
    ensures
        0 <= spec_height_from_width(limit, ratio_w, ratio_h) <= spec_cropped_size(
            width,
            height,
            ratio_w,
            ratio_h,
        ).1,
{
    let (w, h) = spec_cropped_size(width, height, ratio_w, ratio_h);
    lemma_cropped_size_fits(width, height, ratio_w, ratio_h);
    assert(0 <= ratio_h * limit <= ratio_h * w) by (nonlinear_arith)
        requires
            0 <= limit <= w,
            0 < ratio_h,
    ;
    lemma_floor_div(ratio_h * limit, ratio_w);
    assert(ratio_h * w == w * ratio_h) by (nonlinear_arith);
    assert((h + 1) * ratio_w == h * ratio_w + ratio_w) by (nonlinear_arith);
    lemma_div_reaches(ratio_h * limit, ratio_w, h + 1);
}

/// The width that belongs to `height` under the ratio, rounded down.
pub fn width_from_height(height: u32, ratio_w: u32, ratio_h: u32) -> (r: u64)
    requires
        ratio_h > 0,
    ensures
        r == spec_width_from_height(height as int, ratio_w as int, ratio_h as int),
{
    proof {
        assert(0 <= (ratio_w as int) * (height as int) <= 0xffff_ffff * 0xffff_ffff)
            by (nonlinear_arith)
            requires
                0 <= ratio_w <= 0xffff_ffff,
                0 <= height <= 0xffff_ffff,
        ;
    }
    (ratio_w as u64 * height as u64) / (ratio_h as u64)
}

/// The height that belongs to `width` under the ratio, rounded down.
pub fn height_from_width(width: u32, ratio_w: u32, ratio_h: u32) -> (r: u64)
    requires
        ratio_w > 0,
    ensures
        r == spec_height_from_width(width as int, ratio_w as int, ratio_h as int),
{
    proof {
        assert(0 <= (ratio_h as int) * (width as int) <= 0xffff_ffff * 0xffff_ffff)
            by (nonlinear_arith)
            requires
                0 <= ratio_h <= 0xffff_ffff,
                0 <= width <= 0xffff_ffff,
        ;
    }
    (ratio_h as u64 * width as u64) / (ratio_w as u64)
}

/// The size to which an image of `width` x `height` is cropped to have the
/// ratio `ratio_w : ratio_h`.
pub fn cropped_size(width: u32, height: u32, ratio_w: u32, ratio_h: u32) -> (r: (u32, u32))
    requires
        ratio_w > 0,
        ratio_h > 0,
    ensures
        (r.0 as int, r.1 as int) == spec_cropped_size(
            width as int,
            height as int,
            ratio_w as int,
            ratio_h as int,
        ),
        r.0 <= width,
        r.1 <= height,
        r.0 == width || r.1 == height,
        -(ratio_h as int) < r.0 * ratio_h - r.1 * ratio_w < ratio_w as int,
{
    proof {
        lemma_cropped_size_fits(width as int, height as int, ratio_w as int, ratio_h as int);
    }
    let wide: u64 = width_from_height(height, ratio_w, ratio_h);
    if width as u64 > wide {
        (wide as u32, height)
    } else {
        let tall: u64 = height_from_width(width, ratio_w, ratio_h);
        (width, tall as u32)
    }
}

/// The corner at which a crop of `cropped` is cut out of an extent of `full` so
/// that it sits in the middle, rounded down.
pub open spec fn spec_centered(full: int, cropped: int) -> int {
    (full - cropped) / 2
}

/// The top-left corner of the centred ratio crop of an image.
pub fn centered_crop_position(width: u32, height: u32, ratio_w: u32, ratio_h: u32) -> (r: (
    u32,
    u32,
))
    requires
        ratio_w > 0,
        ratio_h > 0,
    ensures
        ({
            let (w, h) = spec_cropped_size(
                width as int,
                height as int,
                ratio_w as int,
                ratio_h as int,
            );
            &&& r.0 == spec_centered(width as int, w)
            &&& r.1 == spec_centered(height as int, h)
            &&& r.0 + w <= width
            &&& r.1 + h <= height
        }),
{
    let (w, h) = cropped_size(width, height, ratio_w, ratio_h);
    ((width - w) / 2, (height - h) / 2)
}

/// A length of the original image carried over to a working copy: `value`
/// times `to`, divided by `from`, rounded down.
pub fn scale(value: u32, from: u32, to: u32) -> (r: u64)
    requires
        from > 0,
    ensures
        r == spec_scale(value as int, from as int, to as int),
{
    proof {
        assert(0 <= (value as int) * (to as int) <= 0xffff_ffff * 0xffff_ffff)
            by (nonlinear_arith)
            requires
                0 <= value <= 0xffff_ffff,
                0 <= to <= 0xffff_ffff,
        ;
    }
    (value as u64 * to as u64) / (from as u64)
}

/// Whether an image is too small to be used: its ratio crop is narrower than
/// the profile's minimum width.
pub open spec fn spec_is_too_small(width: u32, height: u32, config: Config) -> bool {
    spec_cropped_size(
        width as int,
        height as int,
        config.image_ratio.width as int,
        config.image_ratio.height as int,
    ).0 < config.minimum_width_limit
}

/// Whether an image of `width` x `height` is too small to be used.
pub fn is_too_small(width: u32, height: u32, config: &Config) -> (r: bool)
    requires
        config.wf(),
    ensures
        r == spec_is_too_small(width, height, *config),
{
    let (crop_width, _) = cropped_size(
        width,
        height,
        config.image_ratio.width,
        config.image_ratio.height,
    );
    crop_width < config.minimum_width_limit
}

/// Where the corner of a crop of `crop` pixels lies after it was dragged by
/// `delta` along an extent of `extent`: a crop that already touches the edge
/// it is dragged toward stays, and no crop is dragged beyond an edge.
pub open spec fn spec_dragged(position: u32, delta: i64, extent: u32, crop: u32) -> u32 {
    if (delta > 0 && position + crop < extent) || (delta < 0 && position > 0) {
        if position + delta + crop > extent {
            (extent - crop) as u32
        } else if position + delta < 0 {
            0
        } else {
            (position + delta) as u32
        }
    } else {
        position
    }
}

/// Where the corner of a crop lies after it was dragged by `delta`. A crop
/// that lay on the extent still lies on it.
pub fn dragged(position: u32, delta: i64, extent: u32, crop: u32) -> (r: u32)
    requires
        crop <= extent,
    ensures
        r == spec_dragged(position, delta, extent, crop),
        position + crop <= extent ==> r + crop <= extent,
{
    if (delta > 0 && (position as u64 + crop as u64) < extent as u64) || (delta < 0 && position
        > 0) {
        let moved: i128 = position as i128 + delta as i128;
        if moved + crop as i128 > extent as i128 {
            extent - crop
        } else if moved < 0 {
            0
        } else {
            moved as u32
        }
    } else {
        position
    }
}

} // verus!
