//! The image that is open in the editor: a working copy that is cropped and
//! scaled down for the preview, and the buffer that is shown.
//!
//! The container owns the pictures; the properties of the image belong to the
//! session and are handed to each step, which keeps them in line with what it
//! did to the picture.

use crate::config::Config;
use crate::geometry::{
    centered_crop_position, cropped_size, scale, spec_centered, spec_cropped_size, spec_scale,
    Rect,
};
use crate::layout::spec_clamp_u32;
use crate::properties::{ImageProperties, PropertiesView, spec_opened};
use crate::raster::{
    averaging_fits, cut, spec_averaging_fits, spec_cut, spec_tinted, spec_workable, thumbnail,
    thumbnail_samples, tinted, workable, Raster, RasterView,
};
use vstd::prelude::*;

verus! {

/// The height of the preview, in pixels.
pub const PREVIEW_HEIGHT: u32 = 500;

/// Why a step on a picture was not taken.
#[derive(Clone, Copy, Debug, PartialEq, Eq, Structural)]
pub enum FrameError {
    /// The image has no crop yet.
    NotCropped,
    /// The picture holds no pixel, or its size is not known.
    Empty,
    /// The picture that would result cannot be held in memory, or the picture
    /// is too large to be scaled down to it.
    TooLarge,
}

/// The open image.
#[derive(Debug, PartialEq, Eq)]
pub struct ImageContainer {
    image: Raster,
    buffer: Raster,
}

/// The width of the preview of a picture of `width` x `height`: the picture
/// is scaled to the preview's height and its width follows.
pub open spec fn spec_preview_width(width: u32, height: u32) -> u32 {
    spec_clamp_u32((width * PREVIEW_HEIGHT) / (height as int))
}

/// Whether a picture can be scaled to a preview of the given width: the
/// preview can be held in memory and can be made by averaging.
pub open spec fn spec_previewable(image: RasterView, width: u32) -> bool {
    &&& spec_workable(width, PREVIEW_HEIGHT)
    &&& spec_averaging_fits(image.width, image.height, width, PREVIEW_HEIGHT)
}

/// The rectangle that the centred ratio crop cuts out of a picture.
pub open spec fn spec_centered_crop(width: u32, height: u32, config: Config) -> Rect {
    let size = spec_cropped_size(
        width as int,
        height as int,
        config.image_ratio.width as int,
        config.image_ratio.height as int,
    );
    Rect {
        x: spec_centered(width as int, size.0) as u32,
        y: spec_centered(height as int, size.1) as u32,
        width: size.0 as u32,
        height: size.1 as u32,
    }
}

/// The rectangle that a crop with its corner at `(x, y)` of the original cuts
/// out of a working copy of `width` x `height`: the corner is carried over to
/// the copy, and the size is the ratio crop of the copy.
pub open spec fn spec_placed_crop(
    width: u32,
    height: u32,
    original: (u32, u32),
    x: u32,
    y: u32,
    config: Config,
) -> Rect {
    let size = spec_cropped_size(
        width as int,
        height as int,
        config.image_ratio.width as int,
        config.image_ratio.height as int,
    );
    Rect {
        x: spec_clamp_u32(spec_scale(x as int, original.0 as int, width as int)),
        y: spec_clamp_u32(spec_scale(y as int, original.1 as int, height as int)),
        width: size.0 as u32,
        height: size.1 as u32,
    }
}

/// The rectangle that a crop with its corner at `(x, y)` of the original cuts
/// out of a working copy of `width` x `height`.
pub fn placed_crop(
    width: u32,
    height: u32,
    original: (u32, u32),
    x: u32,
    y: u32,
    config: &Config,
) -> (r: Rect)
    requires
        config.wf(),
        original.0 > 0,
        original.1 > 0,
    ensures
        r == spec_placed_crop(width, height, original, x, y, *config),
{
    let ratio = config.image_ratio;
    let (crop_width, crop_height) = cropped_size(width, height, ratio.width, ratio.height);
    Rect {
        x: length(scale(x, original.0, width)),
        y: length(scale(y, original.1, height)),
        width: crop_width,
        height: crop_height,
    }
}

/// A value of 64 bits kept inside the range of a length in pixels.
fn length(v: u64) -> (r: u32)
    ensures
        r == spec_clamp_u32(v as int),
{
    if v > 0xffff_ffff {
        0xffff_ffff
    } else {
        v as u32
    }
}

impl ImageContainer {
    /// The working copy.
    pub closed spec fn spec_image(&self) -> RasterView {
        self.image@
    }

    /// The picture that is shown.
    pub closed spec fn spec_buffer(&self) -> RasterView {
        self.buffer@
    }

    /// Both pictures hold three samples for each of their pixels.
    pub open spec fn wf(&self) -> bool {
        self.spec_image().wf() && self.spec_buffer().wf()
    }

    /// Opens a decoded image: it is both the working copy and the picture that
    /// is shown, its size is recorded as the original size, and every field
    /// stands at the height the profile gives it.
    pub fn new(image: Raster, properties: &mut ImageProperties, config: &Config) -> (r:
        ImageContainer)
        requires
            image@.wf(),
        ensures
            r.wf(),
            r.spec_image() == image@,
            r.spec_buffer() == image@,
            final(properties)@ == spec_opened(
                old(properties)@,
                image@.width,
                image@.height,
                *config,
            ),
    {
        properties.open(image.width(), image.height(), config);
        let buffer = image.clone();
        ImageContainer { image, buffer }
    }

    /// The working copy.
    pub fn image(&self) -> (r: &Raster)
        ensures
            r@ == self.spec_image(),
    {
        &self.image
    }

    /// The picture that is shown.
    pub fn buffer(&self) -> (r: &Raster)
        ensures
            r@ == self.spec_buffer(),
    {
        &self.buffer
    }

    /// Scales the working copy down to the preview: as high as the preview,
    /// and as wide as the size in the properties asks. The properties take the
    /// new size. Nothing is done where the size in the properties has no
    /// height, or where the preview cannot be held in memory or cannot be made
    /// by averaging.
    pub fn apply_resize(&mut self, properties: &mut ImageProperties) -> (r: Result<
        (),
        FrameError,
    >)
        requires
            old(self).wf(),
        ensures
            final(self).wf(),
            old(properties).dimension.1 == 0 ==> r == Err::<(), FrameError>(FrameError::Empty),
            old(properties).dimension.1 != 0 && !spec_previewable(
                old(self).spec_image(),
                spec_preview_width(old(properties).dimension.0, old(properties).dimension.1),
            ) ==> r == Err::<(), FrameError>(FrameError::TooLarge),
            old(properties).dimension.1 != 0 && spec_previewable(
                old(self).spec_image(),
                spec_preview_width(old(properties).dimension.0, old(properties).dimension.1),
            ) ==> r is Ok,
            r is Err ==> final(self).spec_image() == old(self).spec_image() && final(self).spec_buffer() == old(self).spec_buffer() && final(properties)@ == old(properties)@,
            r is Ok ==> ({
                let width = spec_preview_width(
                    old(properties).dimension.0,
                    old(properties).dimension.1,
                );
                &&& final(self).spec_image().width == width
                &&& final(self).spec_image().height == PREVIEW_HEIGHT
                &&& final(self).spec_image().data == thumbnail_samples(
                    old(self).spec_image().data,
                    old(self).spec_image().width,
                    old(self).spec_image().height,
                    width,
                    PREVIEW_HEIGHT,
                )
                &&& final(self).spec_buffer() == final(self).spec_image()
                &&& final(properties)@ == (PropertiesView {
                    dimension: (width, PREVIEW_HEIGHT),
                    ..old(properties)@
                })
            }),
    {
        let (width, height) = properties.dimension;
        if height == 0 {
            return Err(FrameError::Empty);
        }
        let preview_width = length((width as u64 * PREVIEW_HEIGHT as u64) / (height as u64));
        if !workable(preview_width, PREVIEW_HEIGHT) || !averaging_fits(
            self.image.width(),
            self.image.height(),
            preview_width,
            PREVIEW_HEIGHT,
        ) {
            return Err(FrameError::TooLarge);
        }
        self.image = thumbnail(&self.image, preview_width, PREVIEW_HEIGHT);
        self.buffer = self.image.clone();
        properties.dimension = (preview_width, PREVIEW_HEIGHT);
        Ok(())
    }

    /// Crops the working copy to the profile's ratio, about its middle. The
    /// properties take the crop's size, and the corner of the same crop on the
    /// original image.
    pub fn apply_crop(&mut self, properties: &mut ImageProperties, config: &Config)
        requires
            old(self).wf(),
            config.wf(),
        ensures
            final(self).wf(),
            ({
                let before = old(self).spec_image();
                let crop = spec_centered_crop(before.width, before.height, *config);
                let original = spec_centered_crop(
                    old(properties).original_dimension.0,
                    old(properties).original_dimension.1,
                    *config,
                );
                &&& final(self).spec_image() == spec_cut(before, crop)
                &&& final(self).spec_image().width == crop.width
                &&& final(self).spec_image().height == crop.height
                &&& final(self).spec_buffer() == final(self).spec_image()
                &&& final(properties)@ == (PropertiesView {
                    dimension: (crop.width, crop.height),
                    crop_position: Some((original.x, original.y)),
                    ..old(properties)@
                })
            }),
    {
        let ratio = config.image_ratio;
        let (original_width, original_height) = properties.original_dimension;
        properties.crop_position = Some(
            centered_crop_position(original_width, original_height, ratio.width, ratio.height),
        );
        let width = self.image.width();
        let height = self.image.height();
        let (crop_width, crop_height) = cropped_size(width, height, ratio.width, ratio.height);
        let (x, y) = centered_crop_position(width, height, ratio.width, ratio.height);
        properties.dimension = (crop_width, crop_height);
        self.image = cut(&self.image, Rect { x, y, width: crop_width, height: crop_height });
        self.buffer = self.image.clone();
    }

    /// Crops the working copy to the profile's ratio with the crop's corner at
    /// `(original_x, original_y)` of the original image. The properties take
    /// the corner and the crop's size. Nothing is done where the size of the
    /// original is not known.
    pub fn apply_crop_position(
        &mut self,
        properties: &mut ImageProperties,
        config: &Config,
        original_x: u32,
        original_y: u32,
    ) -> (r: Result<(), FrameError>)
        requires
            old(self).wf(),
            config.wf(),
        ensures
            final(self).wf(),
            r is Err == (old(properties).original_dimension.0 == 0 || old(properties).original_dimension.1 == 0),
            r is Err ==> r == Err::<(), FrameError>(FrameError::Empty) && final(self).spec_image()
                == old(self).spec_image() && final(self).spec_buffer() == old(self).spec_buffer()
                && final(properties)@ == old(properties)@,
            r is Ok ==> ({
                let before = old(self).spec_image();
                let crop = spec_placed_crop(
                    before.width,
                    before.height,
                    old(properties).original_dimension,
                    original_x,
                    original_y,
                    *config,
                );
                &&& final(self).spec_image() == spec_cut(before, crop)
                &&& final(self).spec_buffer() == final(self).spec_image()
                &&& final(properties)@ == (PropertiesView {
                    dimension: (crop.width, crop.height),
                    crop_position: Some((original_x, original_y)),
                    ..old(properties)@
                })
            }),
    {
        let (original_width, original_height) = properties.original_dimension;
        if original_width == 0 || original_height == 0 {
            return Err(FrameError::Empty);
        }
        properties.crop_position = Some((original_x, original_y));
        let crop = placed_crop(
            self.image.width(),
            self.image.height(),
            (original_width, original_height),
            original_x,
            original_y,
            config,
        );
        properties.dimension = (crop.width, crop.height);
        self.image = cut(&self.image, crop);
        self.buffer = self.image.clone();
        Ok(())
    }

    /// A copy of the working copy under the translucent layer, ready for the
    /// text to be drawn on it. There is none where the layer cannot be held in
    /// memory.
    pub fn tinted_copy(&self, properties: &ImageProperties) -> (r: Result<Raster, FrameError>)
        requires
            self.wf(),
        ensures
            r is Ok == spec_workable(self.spec_image().width, self.spec_image().height),
            r is Err ==> r == Err::<Raster, FrameError>(FrameError::TooLarge),
            r is Ok ==> r->Ok_0@ == spec_tinted(
                self.spec_image(),
                properties@.translucent_layer_color,
            ),
    {
        if !workable(self.image.width(), self.image.height()) {
            return Err(FrameError::TooLarge);
        }
        Ok(tinted(self.image.clone(), properties.translucent_layer_color))
    }

    /// Shows `drawn` in place of what was shown. The working copy stays.
    pub fn show(&mut self, drawn: Raster)
        requires
            old(self).wf(),
            drawn@.wf(),
        ensures
            final(self).wf(),
            final(self).spec_buffer() == drawn@,
            final(self).spec_image() == old(self).spec_image(),
    {
        self.buffer = drawn;
    }
}

} // verus!
