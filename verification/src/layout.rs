//! Where each line of a text field is drawn, and the box that the lines of a
//! field fill.
//!
//! A field's height is given on the original image; the image that is drawn on
//! may be a scaled copy of it. Measures of a line are thousandths of a pixel.
//! Every result is a whole pixel: the exact value is rounded toward zero and
//! kept inside the range of a pixel coordinate.

use vstd::prelude::*;

verus! {

/// The image that is drawn on, and the original that it was made from.
#[derive(Clone, Copy, Debug, PartialEq, Eq, Structural)]
pub struct Canvas {
    pub width: u32,
    pub height: u32,
    pub original_width: u32,
    pub original_height: u32,
}

impl Canvas {
    /// A canvas can be drawn on when its original has a size.
    pub open spec fn wf(&self) -> bool {
        self.original_width > 0 && self.original_height > 0
    }
}

/// The width and height of one line of text at its font's size, in
/// thousandths of a pixel.
#[derive(Clone, Copy, Debug, PartialEq, Eq, Structural)]
pub struct LineMeasure {
    pub width: u32,
    pub height: u32,
}

/// How a line is placed from left to right.
#[derive(Clone, Copy, Debug, PartialEq, Eq, Structural)]
pub enum Anchor {
    /// The line's middle is the image's middle: the quotes.
    Center,
    /// The line ends at the right margin: the tags.
    Right,
}

/// How the lines of one field are set.
#[derive(Clone, Copy, Debug, PartialEq, Eq, Structural)]
pub struct TextBlock {
    /// Height of the first line, on the original image.
    pub position: u32,
    /// How each line is placed from left to right.
    pub anchor: Anchor,
    /// Where a right-anchored line ends, in thousandths of the image's width.
    pub right_margin: u32,
    /// Whether lines are set apart by more than their height.
    pub line_spacing: bool,
}

/// The top-left corner at which a line is drawn.
#[derive(Clone, Copy, Debug, PartialEq, Eq, Structural)]
pub struct LinePlacement {
    pub x: i32,
    pub y: i32,
}

/// `v` if it is a pixel coordinate, else the nearest one.
pub open spec fn spec_clamp_i32(v: int) -> i32 {
    if v > i32::MAX {
        i32::MAX
    } else if v < i32::MIN {
        i32::MIN
    } else {
        v as i32
    }
}

/// `v` if it is a length in pixels, else the nearest one.
pub open spec fn spec_clamp_u32(v: int) -> u32 {
    if v > u32::MAX {
        u32::MAX
    } else if v < 0 {
        0
    } else {
        v as u32
    }
}

/// The quotient of `num` by a positive `den`, rounded toward zero.
pub open spec fn spec_div_toward_zero(num: int, den: int) -> int {
    if num >= 0 {
        num / den
    } else {
        -((-num) / den)
    }
}

/// The distance from one line to the next, in hundredths of the line's height:
/// 100 where lines are not set apart, else 112 for a centred field and 120 for
/// a right-anchored one.
pub open spec fn spec_spacing(anchor: Anchor, line_spacing: bool) -> int {
    if !line_spacing {
        100
    } else {
        match anchor {
            Anchor::Center => 112,
            Anchor::Right => 120,
        }
    }
}

/// The exact left edge of a line, before it is kept in range: a centred line
/// leaves as much of the image's width on its left as on its right; a
/// right-anchored line ends at `right_margin` thousandths of the width.
pub open spec fn spec_line_x(width: int, line_width: int, anchor: Anchor, right_margin: int) -> int {
    match anchor {
        Anchor::Center => spec_div_toward_zero(width * 1000 - line_width, 2000),
        Anchor::Right => spec_div_toward_zero(width * right_margin - line_width, 1000),
    }
}

/// The exact top edge of line `index` of a field, before it is kept in range:
/// the field's height scaled from the original to the image, and below it
/// `index` times the line's height times the spacing.
pub open spec fn spec_line_y(
    position: int,
    height: int,
    original_height: int,
    index: int,
    line_height: int,
    spacing: int,
) -> int {
    (position * height * 100_000 + index * line_height * spacing * original_height) / (
    original_height * 100_000)
}

/// The first line of a field stands at the field's height, scaled from the
/// original to the image and rounded down, whatever the line and the spacing.
pub proof fn lemma_first_line(
    position: int,
    height: int,
    original_height: int,
    line_height: int,
    spacing: int,
)
    requires
        0 <= position,
        0 <= height,
        0 < original_height,
    ensures
        spec_line_y(position, height, original_height, 0, line_height, spacing) == (position
            * height) / original_height,
{
    assert(0 * line_height * spacing * original_height == 0) by (nonlinear_arith);
    assert(position * height * 100_000 == 100_000 * (position * height)) by (nonlinear_arith);
    assert(original_height * 100_000 == 100_000 * original_height) by (nonlinear_arith);
    vstd::arithmetic::div_mod::lemma_div_multiples_vanish_quotient(
        100_000,
        position * height,
        original_height,
    );
}

/// A later line of the same height never stands above an earlier one.
pub proof fn lemma_lines_descend(
    position: int,
    height: int,
    original_height: int,
    index: int,
    line_height: int,
    spacing: int,
)
    requires
        0 <= position,
        0 <= height,
        0 < original_height,
        0 <= index,
        0 <= line_height,
        0 <= spacing,
    ensures
        spec_line_y(position, height, original_height, index, line_height, spacing)
            <= spec_line_y(position, height, original_height, index + 1, line_height, spacing),
{
    let step = line_height * spacing * original_height;
    assert(0 <= step) by (nonlinear_arith)
        requires
            0 <= line_height,
            0 <= spacing,
            0 < original_height,
            step == line_height * spacing * original_height,
    ;
    assert(index * line_height * spacing * original_height == index * step)
        by (nonlinear_arith)
        requires
            step == line_height * spacing * original_height,
    ;
    assert((index + 1) * line_height * spacing * original_height == index * step + step)
        by (nonlinear_arith)
        requires
            step == line_height * spacing * original_height,
    ;
    assert(0 < original_height * 100_000) by (nonlinear_arith)
        requires
            0 < original_height,
    ;
    vstd::arithmetic::div_mod::lemma_div_is_ordered(
        position * height * 100_000 + index * step,
        position * height * 100_000 + index * step + step,
        original_height * 100_000,
    );
}

/// Where line `index` of a field is drawn.
pub open spec fn spec_placement(canvas: Canvas, block: TextBlock, index: int, line: LineMeasure) -> LinePlacement {
    LinePlacement {
        x: spec_clamp_i32(
            spec_line_x(
                canvas.width as int,
                line.width as int,
                block.anchor,
                block.right_margin as int,
            ),
        ),
        y: spec_clamp_i32(
            spec_line_y(
                block.position as int,
                canvas.height as int,
                canvas.original_height as int,
                index,
                line.height as int,
                spec_spacing(block.anchor, block.line_spacing),
            ),
        ),
    }
}

/// The distance from one line to the next, in hundredths of the line's height.
pub fn spacing(anchor: Anchor, line_spacing: bool) -> (r: u32)
    ensures
        r == spec_spacing(anchor, line_spacing),
{
    if !line_spacing {
        100
    } else {
        match anchor {
            Anchor::Center => 112,
            Anchor::Right => 120,
        }
    }
}

/// `num / den` rounded toward zero and kept inside the range of a pixel
/// coordinate, for a numerator given as the difference `plus - minus`.
fn difference_over(plus: u128, minus: u128, den: u128) -> (r: i32)
    requires
        den > 0,
    ensures
        r == spec_clamp_i32(spec_div_toward_zero(plus - minus, den as int)),
{
    if plus >= minus {
        let q: u128 = (plus - minus) / den;
        if q > 0x7fff_ffff {
            0x7fff_ffff
        } else {
            q as i32
        }
    } else {
        let q: u128 = (minus - plus) / den;
        if q >= 0x8000_0000 {
            -0x8000_0000
        } else {
            -(q as i32)
        }
    }
}

/// `num / den` rounded toward zero and kept inside the range of a length in
/// pixels, for a numerator given as the difference `plus - minus`: a negative
/// quotient gives zero.
pub(crate) fn length_over(plus: u128, minus: u128, den: u128) -> (r: u32)
    requires
        den > 0,
    ensures
        r == spec_clamp_u32(spec_div_toward_zero(plus - minus, den as int)),
{
    if plus >= minus {
        let q: u128 = (plus - minus) / den;
        if q > 0xffff_ffff {
            0xffff_ffff
        } else {
            q as u32
        }
    } else {
        proof {
            vstd::arithmetic::div_mod::lemma_div_pos_is_pos(minus - plus, den as int);
        }
        0
    }
}

/// The left edge of a line of `line_width` on an image of `width`.
pub fn line_x(width: u32, line_width: u32, anchor: Anchor, right_margin: u32) -> (r: i32)
    ensures
        r == spec_clamp_i32(
            spec_line_x(width as int, line_width as int, anchor, right_margin as int),
        ),
{
    match anchor {
        Anchor::Center => difference_over(width as u128 * 1000, line_width as u128, 2000),
        Anchor::Right => {
            proof {
                assert(0 <= (width as int) * (right_margin as int) <= 0xffff_ffff * 0xffff_ffff)
                    by (nonlinear_arith)
                    requires
                        0 <= width <= 0xffff_ffff,
                        0 <= right_margin <= 0xffff_ffff,
                ;
            }
            difference_over(width as u128 * right_margin as u128, line_width as u128, 1000)
        },
    }
}

/// The top edge of line `index` of a field whose first line stands at
/// `position` on the original.
pub fn line_y(
    position: u32,
    height: u32,
    original_height: u32,
    index: u32,
    line_height: u32,
    anchor: Anchor,
    line_spacing: bool,
) -> (r: i32)
    requires
        original_height > 0,
    ensures
        r == spec_clamp_i32(
            spec_line_y(
                position as int,
                height as int,
                original_height as int,
                index as int,
                line_height as int,
                spec_spacing(anchor, line_spacing),
            ),
        ),
{
    let factor: u32 = spacing(anchor, line_spacing);
    proof {
        let p = position as int;
        let h = height as int;
        let o = original_height as int;
        let i = index as int;
        let l = line_height as int;
        let f = factor as int;
        assert(0 <= p * h <= 0xffff_ffff * 0xffff_ffff) by (nonlinear_arith)
            requires
                0 <= p <= 0xffff_ffff,
                0 <= h <= 0xffff_ffff,
        ;
        assert(0 <= i * l <= 0xffff_ffff * 0xffff_ffff) by (nonlinear_arith)
            requires
                0 <= i <= 0xffff_ffff,
                0 <= l <= 0xffff_ffff,
        ;
        assert(0 <= f * o <= 120 * 0xffff_ffff) by (nonlinear_arith)
            requires
                0 <= f <= 120,
                0 <= o <= 0xffff_ffff,
        ;
        assert(0 <= (i * l) * (f * o) <= (0xffff_ffff * 0xffff_ffff) * (120 * 0xffff_ffff))
            by (nonlinear_arith)
            requires
                0 <= i * l <= 0xffff_ffff * 0xffff_ffff,
                0 <= f * o <= 120 * 0xffff_ffff,
        ;
        assert(i * l * f * o == (i * l) * (f * o)) by (nonlinear_arith);
        assert(0 < o * 100_000 <= 0xffff_ffff * 100_000) by (nonlinear_arith)
            requires
                0 < o <= 0xffff_ffff,
        ;
    }
    let scaled: u128 = (position as u128 * height as u128) * 100_000;
    let below: u128 = (index as u128 * line_height as u128) * (factor as u128
        * original_height as u128);
    let den: u128 = original_height as u128 * 100_000;
    let q: u128 = (scaled + below) / den;
    if q > 0x7fff_ffff {
        0x7fff_ffff
    } else {
        q as i32
    }
}

/// Where line `index` of a field is drawn.
pub fn place_line(canvas: &Canvas, block: &TextBlock, index: u32, line: LineMeasure) -> (r:
    LinePlacement)
    requires
        canvas.wf(),
    ensures
        r == spec_placement(*canvas, *block, index as int, line),
{
    LinePlacement {
        x: line_x(canvas.width, line.width, block.anchor, block.right_margin),
        y: line_y(
            block.position,
            canvas.height,
            canvas.original_height,
            index,
            line.height,
            block.anchor,
            block.line_spacing,
        ),
    }
}

/// Where each line of a field is drawn, in the order of the lines. A field
/// without lines has no placements.
pub fn place_lines(canvas: &Canvas, block: &TextBlock, lines: &Vec<LineMeasure>) -> (r: Vec<
    LinePlacement,
>)
    requires
        canvas.wf(),
        lines.len() <= u32::MAX,
    ensures
        r.len() == lines.len(),
        forall|i: int|
            0 <= i < lines.len() ==> r[i] == spec_placement(*canvas, *block, i, lines[i]),
{
    let mut out: Vec<LinePlacement> = Vec::new();
    let mut i: usize = 0;
    while i < lines.len()
        invariant
            canvas.wf(),
            lines.len() <= u32::MAX,
            0 <= i <= lines.len(),
            out.len() == i,
            forall|k: int| 0 <= k < i ==> out[k] == spec_placement(*canvas, *block, k, lines[k]),
        decreases lines.len() - i,
    {
        let placed = place_line(canvas, block, i as u32, lines[i]);
        out.push(placed);
        i = i + 1;
    }
    out
}

/// The box that the lines of a field fill, in thousandths of a pixel.
#[derive(Clone, Copy, Debug, PartialEq, Eq, Structural)]
pub struct TextBox {
    pub width: u32,
    pub height: u64,
}

/// The width of the widest line; zero without lines.
pub open spec fn spec_widest(lines: Seq<LineMeasure>) -> int
    decreases lines.len(),
{
    if lines.len() == 0 {
        0
    } else {
        let before = spec_widest(lines.drop_last());
        if lines.last().width > before {
            lines.last().width as int
        } else {
            before
        }
    }
}

/// The heights of the lines added up, in hundredths of a thousandth of a
/// pixel: the first line counts a hundred times its height, every later line
/// `spacing` times.
pub open spec fn spec_stacked(lines: Seq<LineMeasure>, spacing: int) -> int
    decreases lines.len(),
{
    if lines.len() == 0 {
        0
    } else {
        spec_stacked(lines.drop_last(), spacing) + lines.last().height * (if lines.len() == 1 {
            100
        } else {
            spacing
        })
    }
}

/// `v` if it fits 64 bits, else the largest value that does.
pub open spec fn spec_clamp_u64(v: int) -> u64 {
    if v > u64::MAX {
        u64::MAX
    } else if v < 0 {
        0
    } else {
        v as u64
    }
}

/// The box of a field: as wide as its widest line, and as high as its lines
/// stacked with the field's spacing, rounded down.
pub open spec fn spec_bounding_box(lines: Seq<LineMeasure>, anchor: Anchor, line_spacing: bool) -> TextBox {
    TextBox {
        width: spec_widest(lines) as u32,
        height: spec_clamp_u64(spec_stacked(lines, spec_spacing(anchor, line_spacing)) / 100),
    }
}

/// The widest line is one of the lines, or zero.
pub proof fn lemma_widest_bounds(lines: Seq<LineMeasure>)
    ensures
        0 <= spec_widest(lines) <= u32::MAX,
        forall|i: int| 0 <= i < lines.len() ==> lines[i].width <= spec_widest(lines),
        lines.len() == 0 ==> spec_widest(lines) == 0,
        lines.len() > 0 ==> exists|i: int|
            0 <= i < lines.len() && #[trigger] lines[i].width == spec_widest(lines),
    decreases lines.len(),
{
    if lines.len() > 0 {
        let front = lines.drop_last();
        lemma_widest_bounds(front);
        assert forall|i: int| 0 <= i < lines.len() implies lines[i].width <= spec_widest(
            lines,
        ) by {
            if i < front.len() {
                assert(front[i] == lines[i]);
            }
        }
        if lines.last().width > spec_widest(front) {
            assert(lines[lines.len() - 1].width == spec_widest(lines));
        } else if front.len() > 0 {
            let i = choose|i: int| 0 <= i < front.len() && #[trigger] front[i].width == spec_widest(
                front,
            );
            assert(lines[i].width == spec_widest(lines));
        } else {
            assert(lines[0].width == spec_widest(lines));
        }
    }
}

/// The stacked heights are bounded by the number of lines.
pub proof fn lemma_stacked_bounds(lines: Seq<LineMeasure>, spacing: int)
    requires
        100 <= spacing <= 120,
    ensures
        0 <= spec_stacked(lines, spacing) <= lines.len() * (120 * 0xffff_ffff),
    decreases lines.len(),
{
    if lines.len() > 0 {
        lemma_stacked_bounds(lines.drop_last(), spacing);
        let h = lines.last().height as int;
        let f = if lines.len() == 1 { 100 } else { spacing };
        assert(0 <= h * f <= 120 * 0xffff_ffff) by (nonlinear_arith)
            requires
                0 <= h <= 0xffff_ffff,
                100 <= f <= 120,
        ;
        assert(lines.drop_last().len() * (120 * 0xffff_ffff) + 120 * 0xffff_ffff == lines.len()
            * (120 * 0xffff_ffff)) by (nonlinear_arith)
            requires
                lines.drop_last().len() + 1 == lines.len(),
        ;
    }
}

/// The box that the lines of a field fill.
pub fn bounding_box(lines: &Vec<LineMeasure>, anchor: Anchor, line_spacing: bool) -> (r: TextBox)
    requires
        lines.len() <= u32::MAX,
    ensures
        r == spec_bounding_box(lines@, anchor, line_spacing),
        (r.width == 0) == (forall|i: int| 0 <= i < lines.len() ==> lines[i].width == 0),
{
    let factor: u32 = spacing(anchor, line_spacing);
    let mut widest: u32 = 0;
    let mut stacked: u128 = 0;
    let mut i: usize = 0;
    proof {
        assert(lines@.take(0) =~= Seq::<LineMeasure>::empty());
    }
    while i < lines.len()
        invariant
            lines.len() <= u32::MAX,
            factor == spec_spacing(anchor, line_spacing),
            0 <= i <= lines.len(),
            widest == spec_widest(lines@.take(i as int)),
            stacked == spec_stacked(lines@.take(i as int), factor as int),
            stacked <= i * (120 * 0xffff_ffff),
        decreases lines.len() - i,
    {
        let line = lines[i];
        proof {
            let next = lines@.take(i + 1);
            assert(next.drop_last() =~= lines@.take(i as int));
            assert(next.last() == lines[i as int]);
            lemma_stacked_bounds(next, factor as int);
            assert((i + 1) * (120 * 0xffff_ffff) <= 0xffff_ffff * (120 * 0xffff_ffff))
                by (nonlinear_arith)
                requires
                    i + 1 <= 0xffff_ffff,
            ;
        }
        if line.width > widest {
            widest = line.width;
        }
        let weight: u128 = if i == 0 { 100 } else { factor as u128 };
        proof {
            assert(0 <= (line.height as int) * (weight as int) <= 120 * 0xffff_ffff)
                by (nonlinear_arith)
                requires
                    0 <= line.height <= 0xffff_ffff,
                    100 <= weight <= 120,
            ;
        }
        stacked = stacked + line.height as u128 * weight;
        i = i + 1;
    }
    proof {
        assert(lines@.take(lines.len() as int) =~= lines@);
        lemma_widest_bounds(lines@);
    }
    let height: u128 = stacked / 100;
    TextBox {
        width: widest,
        height: if height > 0xffff_ffff_ffff_ffff {
            0xffff_ffff_ffff_ffff
        } else {
            height as u64
        },
    }
}

} // verus!
