//! A picture held as plain samples, and the operations of the `image` crate
//! that the editor applies to it.
//!
//! A raster holds three samples for each pixel, red, green and blue, row by row
//! from the top. The `image` crate cuts, scales and tints; what it does is
//! stated here over the samples, and the callers in this library are proved
//! against those statements.

use crate::geometry::{spec_clamped, Rect};
use vstd::prelude::*;

verus! {

/// A picture of `width` x `height` pixels with three samples each.
#[derive(Debug, PartialEq, Eq)]
pub struct Raster {
    width: u32,
    height: u32,
    data: Vec<u8>,
}

/// What a raster holds.
pub ghost struct RasterView {
    pub width: u32,
    pub height: u32,
    pub data: Seq<u8>,
}

impl RasterView {
    /// A raster holds exactly three samples for each of its pixels.
    pub open spec fn wf(self) -> bool {
        self.data.len() == 3 * self.width * self.height
    }

    /// Whether the raster holds no pixel.
    pub open spec fn is_empty(self) -> bool {
        self.width == 0 || self.height == 0
    }

    /// The three samples of the pixel in column `x` of row `y`, and a fourth
    /// that says the pixel is opaque.
    pub open spec fn pixel(self, x: int, y: int) -> Seq<u8> {
        let at = (y * self.width + x) * 3;
        seq![self.data[at], self.data[at + 1], self.data[at + 2], 255u8]
    }
}

impl View for Raster {
    type V = RasterView;

    closed spec fn view(&self) -> RasterView {
        RasterView { width: self.width, height: self.height, data: self.data@ }
    }
}

/// Whether a picture of `width` x `height` can be held in memory while the
/// `image` crate works on it: with four samples of four bytes for each pixel.
pub open spec fn spec_workable(width: u32, height: u32) -> bool {
    16 * width * height <= isize::MAX
}

/// Whether a picture of `width` x `height` can be worked on.
pub fn workable(width: u32, height: u32) -> (r: bool)
    ensures
        r == spec_workable(width, height),
{
    proof {
        assert(0 <= (width as int) * (height as int) <= 0xffff_ffff * 0xffff_ffff)
            by (nonlinear_arith)
            requires
                0 <= width <= 0xffff_ffff,
                0 <= height <= 0xffff_ffff,
        ;
        assert(16 * width * height == 16 * ((width as int) * (height as int)))
            by (nonlinear_arith);
    }
    let bytes: u128 = 16 * (width as u128 * height as u128);
    bytes <= isize::MAX as u128
}

/// How many more pixels of the source may fall into a new pixel along one
/// side than the two sides' lengths give, because the `image` crate finds them
/// with numbers of 24 bits.
pub const AVERAGING_MARGIN: u32 = 2048;

/// Whether a picture can be scaled down by averaging: the samples of all the
/// pixels that fall into one new pixel are added up in 32 bits, so there must
/// not be too many of them.
pub open spec fn spec_averaging_fits(
    width: u32,
    height: u32,
    new_width: u32,
    new_height: u32,
) -> bool {
    new_width > 0 && new_height > 0 ==> (width / new_width + AVERAGING_MARGIN) * (height
        / new_height + AVERAGING_MARGIN) * 255 <= u32::MAX
}

/// Whether a picture of `width` x `height` can be scaled to the new size by
/// averaging.
pub fn averaging_fits(width: u32, height: u32, new_width: u32, new_height: u32) -> (r: bool)
    ensures
        r == spec_averaging_fits(width, height, new_width, new_height),
{
    if new_width == 0 || new_height == 0 {
        return true;
    }
    let across: u64 = (width / new_width) as u64 + AVERAGING_MARGIN as u64;
    let down: u64 = (height / new_height) as u64 + AVERAGING_MARGIN as u64;
    proof {
        assert(0 <= across * down <= 0x1_0000_07ff * 0x1_0000_07ff) by (nonlinear_arith)
            requires
                0 <= across <= 0x1_0000_07ff,
                0 <= down <= 0x1_0000_07ff,
        ;
        assert((width / new_width + AVERAGING_MARGIN) * (height / new_height + AVERAGING_MARGIN)
            * 255 == 255 * (across * down)) by (nonlinear_arith)
            requires
                across == width / new_width + AVERAGING_MARGIN,
                down == height / new_height + AVERAGING_MARGIN,
        ;
    }
    let samples: u128 = 255 * (across as u128 * down as u128);
    samples <= 0xffff_ffff
}

/// The part of a raster under a rectangle, as far as the rectangle lies on the
/// raster: sample by sample what the raster holds there.
pub open spec fn spec_cut(source: RasterView, rect: Rect) -> RasterView {
    let part = spec_clamped(rect, source.width, source.height);
    RasterView {
        width: part.width,
        height: part.height,
        data: Seq::new(
            (3 * part.width * part.height) as nat,
            |k: int|
                source.data[((part.y + (k / 3) / (part.width as int)) * source.width + part.x + (k
                    / 3) % (part.width as int)) * 3 + k % 3],
        ),
    }
}

/// The colour that results when the colour `over` is laid over the colour
/// `under`, each given as red, green, blue and alpha: what `Pixel::blend` of
/// the `image` crate computes for pixels of four 8-bit samples.
pub uninterp spec fn blended(under: Seq<u8>, over: Seq<u8>) -> Seq<u8>;

/// A raster with the colour `rgba` laid over every pixel. The alpha of the
/// result is dropped: a raster is opaque.
pub open spec fn spec_tinted(source: RasterView, rgba: Seq<u8>) -> RasterView {
    RasterView {
        width: source.width,
        height: source.height,
        data: Seq::new(
            source.data.len(),
            |k: int|
                blended(
                    seq![
                        source.data[k - k % 3],
                        source.data[k - k % 3 + 1],
                        source.data[k - k % 3 + 2],
                        255u8,
                    ],
                    rgba,
                )[k % 3],
        ),
    }
}

/// The samples of a raster scaled to a new size by the `image` crate's
/// `thumbnail`, which averages the pixels that fall into each new pixel.
pub uninterp spec fn thumbnail_samples(
    data: Seq<u8>,
    width: u32,
    height: u32,
    new_width: u32,
    new_height: u32,
) -> Seq<u8>;

/// The longest side, of the source or of the result, up to which a picture is
/// scaled with the Lanczos filter. The `image` crate finds the source pixels of
/// each new pixel with numbers of 24 bits. Up to this length every side and
/// every index is such a number exactly, and the place of a new pixel on the
/// source is off by less than a fiftieth of a pixel, so that the source pixel
/// nearest to that place is always among those that are weighed. Far beyond
/// it the crate may weigh only pixels that count for nothing, and gives up.
pub const RESAMPLING_LIMIT: u32 = 65_536;

/// Whether a picture of `width` x `height` can be scaled to the new size with
/// the Lanczos filter: no side of either is longer than the limit.
pub open spec fn spec_resampling_fits(
    width: u32,
    height: u32,
    new_width: u32,
    new_height: u32,
) -> bool {
    &&& width <= RESAMPLING_LIMIT
    &&& height <= RESAMPLING_LIMIT
    &&& new_width <= RESAMPLING_LIMIT
    &&& new_height <= RESAMPLING_LIMIT
}

/// Whether a picture of `width` x `height` can be scaled to the new size with
/// the Lanczos filter.
pub fn resampling_fits(width: u32, height: u32, new_width: u32, new_height: u32) -> (r: bool)
    ensures
        r == spec_resampling_fits(width, height, new_width, new_height),
{
    width <= RESAMPLING_LIMIT && height <= RESAMPLING_LIMIT && new_width <= RESAMPLING_LIMIT
        && new_height <= RESAMPLING_LIMIT
}

/// Whether `result` holds the samples that the `image` crate's `resize` with
/// the Lanczos filter of window 3 gives for a source of `width` x `height`
/// with the samples `data`, scaled to `new_width` x `new_height`. The filter
/// takes a sine, which machines compute differently in the last place, so the
/// samples of the result are no function of the source: this only ties them
/// to the source they were made from.
pub uninterp spec fn resampled_from(
    data: Seq<u8>,
    width: u32,
    height: u32,
    new_width: u32,
    new_height: u32,
    result: Seq<u8>,
) -> bool;

impl Raster {
    /// A raster of the given size from its samples, where there are exactly
    /// three for each pixel.
    pub fn new(width: u32, height: u32, data: Vec<u8>) -> (r: Option<Raster>)
        ensures
            r is Some == (data@.len() == 3 * width * height),
            r is Some ==> r->0@ == (RasterView { width, height, data: data@ }),
    {
        proof {
            assert(0 <= (width as int) * (height as int) <= 0xffff_ffff * 0xffff_ffff)
                by (nonlinear_arith)
                requires
                    0 <= width <= 0xffff_ffff,
                    0 <= height <= 0xffff_ffff,
            ;
            assert(3 * width * height == 3 * ((width as int) * (height as int)))
                by (nonlinear_arith);
        }
        let samples: u128 = 3 * (width as u128 * height as u128);
        if data.len() as u128 == samples {
            Some(Raster { width, height, data })
        } else {
            None
        }
    }

    /// The number of pixels in a row.
    pub fn width(&self) -> (r: u32)
        ensures
            r == self@.width,
    {
        self.width
    }

    /// The number of rows.
    pub fn height(&self) -> (r: u32)
        ensures
            r == self@.height,
    {
        self.height
    }

    /// The samples, row by row.
    pub fn data(&self) -> (r: &Vec<u8>)
        ensures
            r@ == self@.data,
    {
        &self.data
    }

    /// Gives up the raster for its samples.
    pub fn into_data(self) -> (r: Vec<u8>)
        ensures
            r@ == self@.data,
    {
        self.data
    }
}

impl Clone for Raster {
    fn clone(&self) -> (r: Raster)
        ensures
            r@ == self@,
    {
        let data = self.data.clone();
        assert(data@ =~= self.data@);
        Raster { width: self.width, height: self.height, data }
    }
}

/// `imageops::crop_imm` followed by `SubImage::to_image`: the rectangle is cut
/// to the raster as `spec_clamped` says, and every pixel under it is copied.
#[verifier::external_body]
pub(crate) fn cut(source: &Raster, rect: Rect) -> (r: Raster)
    requires
        source@.wf(),
    ensures
        r@ == spec_cut(source@, rect),
{
    let whole = image::RgbImage::from_raw(source.width, source.height, source.data.clone()).unwrap();
    let part = image::imageops::crop_imm(&whole, rect.x, rect.y, rect.width, rect.height).to_image();
    Raster { width: part.width(), height: part.height(), data: part.into_raw() }
}

/// `imageops::thumbnail`: a raster of exactly the new size, whose samples
/// depend on the source and the two sizes alone. The new raster must fit into
/// memory, and the pixels that fall into one new pixel must not be too many to
/// be added up.
#[verifier::external_body]
pub(crate) fn thumbnail(source: &Raster, new_width: u32, new_height: u32) -> (r: Raster)
    requires
        source@.wf(),
        spec_workable(new_width, new_height),
        spec_averaging_fits(source@.width, source@.height, new_width, new_height),
    ensures
        r@.width == new_width,
        r@.height == new_height,
        r@.wf(),
        r@.data == thumbnail_samples(
            source@.data,
            source@.width,
            source@.height,
            new_width,
            new_height,
        ),
{
    let view = image::ImageBuffer::<image::Rgb<u8>, &[u8]>::from_raw(
        source.width,
        source.height,
        source.data.as_slice(),
    ).unwrap();
    let small = image::imageops::thumbnail(&view, new_width, new_height);
    Raster { width: new_width, height: new_height, data: small.into_raw() }
}

/// `imageops::resize` with the Lanczos filter of window 3: a raster of exactly
/// the new size, made from the source. Its samples are not said to be a
/// function of the source. The source must hold a pixel; no side of the source
/// or of the result may be longer than the limit up to which the crate finds
/// its pixels exactly; and the new raster and the picture the crate makes on
/// the way, as wide as the source and as high as the result, must fit into
/// memory.
#[verifier::external_body]
pub(crate) fn resampled(source: &Raster, new_width: u32, new_height: u32) -> (r: Raster)
    requires
        source@.wf(),
        !source@.is_empty(),
        spec_resampling_fits(source@.width, source@.height, new_width, new_height),
        spec_workable(new_width, new_height),
        spec_workable(source@.width, new_height),
    ensures
        r@.width == new_width,
        r@.height == new_height,
        r@.wf(),
        resampled_from(
            source@.data,
            source@.width,
            source@.height,
            new_width,
            new_height,
            r@.data,
        ),
{
    let view = image::ImageBuffer::<image::Rgb<u8>, &[u8]>::from_raw(
        source.width,
        source.height,
        source.data.as_slice(),
    ).unwrap();
    let scaled = image::imageops::resize(
        &view,
        new_width,
        new_height,
        image::imageops::FilterType::Lanczos3,
    );
    Raster { width: new_width, height: new_height, data: scaled.into_raw() }
}

/// `imageops::overlay` of a layer of one colour, as large as the raster, at
/// the raster's corner: every pixel is blended with the colour and stored
/// without its alpha. The layer must fit into memory.
#[verifier::external_body]
pub(crate) fn tinted(source: Raster, rgba: [u8; 4]) -> (r: Raster)
    requires
        source@.wf(),
        spec_workable(source@.width, source@.height),
    ensures
        r@ == spec_tinted(source@, rgba@),
{
    let (width, height) = (source.width, source.height);
    let mut bottom = image::DynamicImage::ImageRgb8(
        image::RgbImage::from_raw(width, height, source.data).unwrap(),
    );
    let layer = image::DynamicImage::ImageRgba8(
        image::RgbaImage::from_pixel(width, height, image::Rgba(rgba)),
    );
    image::imageops::overlay(&mut bottom, &layer, 0, 0);
    Raster { width, height, data: bottom.into_rgb8().into_raw() }
}

/// `Pixel::blend` on pixels of four 8-bit samples: `over` laid over `under`.
/// A colour with alpha 0 changes nothing, one with alpha 255 replaces what is
/// under it; in between the result depends on the two colours alone.
#[verifier::external_body]
pub(crate) fn blend(under: [u8; 4], over: [u8; 4]) -> (r: [u8; 4])
    ensures
        r@ == blended(under@, over@),
        over[3] == 0 ==> r@ == under@,
        over[3] == 255 ==> r@ == over@,
{
    let mut pixel = image::Rgba(under);
    image::Pixel::blend(&mut pixel, &image::Rgba(over));
    pixel.0
}

} // verus!
