//! The frame that is exported: which part of the original is cut out, whether
//! it is scaled down before anything is drawn on it, and how it is encoded.

use crate::config::Config;
use crate::geometry::{
    clamped, cropped_size, height_from_width, lemma_cropped_size_fits, lemma_height_within_crop,
    spec_clamped, spec_cropped_size, spec_height_from_width, Rect,
};
use crate::container::FrameError;
use crate::image_info::ImageType;
use crate::properties::ImageProperties;
use crate::raster::{
    cut, resampled, resampled_from, resampling_fits, spec_cut, spec_resampling_fits, spec_tinted,
    spec_workable, tinted, workable, Raster, RasterView,
};
use vstd::prelude::*;

verus! {

/// How the exported frame is made from the original image. The text is drawn
/// on the frame after both steps, so that its sharpness is that of the
/// exported size.
#[derive(Clone, Copy, Debug, PartialEq, Eq)]
pub struct ExportPlan {
    /// The part of the original that is cut out; it lies on the image.
    pub crop: Rect,
    /// The size to which the cut-out is scaled, where it is scaled.
    pub resize: Option<(u32, u32)>,
}

impl ExportPlan {
    /// The size of the frame once both steps are done.
    pub open spec fn spec_frame_size(&self) -> (u32, u32) {
        match self.resize {
            Some(size) => size,
            None => (self.crop.width, self.crop.height),
        }
    }

    /// The size of the frame once both steps are done.
    pub fn frame_size(&self) -> (r: (u32, u32))
        ensures
            r == self.spec_frame_size(),
    {
        match self.resize {
            Some(size) => size,
            None => (self.crop.width, self.crop.height),
        }
    }
}

/// The plan for an original of `width` x `height` whose crop has its corner at
/// `crop_position`. The cut-out has the ratio crop's size, as far as it lies on
/// the image. Where the ratio crop is wider than the profile's maximum, the
/// cut-out is scaled to that maximum and to the height that belongs to it.
pub open spec fn spec_export_plan(
    width: u32,
    height: u32,
    crop_position: (u32, u32),
    config: Config,
) -> ExportPlan {
    let size = spec_cropped_size(
        width as int,
        height as int,
        config.image_ratio.width as int,
        config.image_ratio.height as int,
    );
    let wanted = Rect {
        x: crop_position.0,
        y: crop_position.1,
        width: size.0 as u32,
        height: size.1 as u32,
    };
    ExportPlan {
        crop: spec_clamped(wanted, width, height),
        resize: if size.0 > config.maximum_width_limit {
            Some(
                (
                    config.maximum_width_limit,
                    spec_height_from_width(
                        config.maximum_width_limit as int,
                        config.image_ratio.width as int,
                        config.image_ratio.height as int,
                    ) as u32,
                ),
            )
        } else {
            None
        },
    }
}

/// Plans the exported frame. The frame is never wider than the profile's
/// maximum width, and the cut-out never reaches beyond the original.
pub fn plan_export(width: u32, height: u32, crop_position: (u32, u32), config: &Config) -> (r:
    ExportPlan)
    requires
        config.wf(),
    ensures
        r == spec_export_plan(width, height, crop_position, *config),
        r.spec_frame_size().0 <= config.maximum_width_limit,
        r.spec_frame_size().1 <= height,
        r.crop.x + r.crop.width <= width,
        r.crop.y + r.crop.height <= height,
{
    let ratio = config.image_ratio;
    let (crop_width, crop_height) = cropped_size(width, height, ratio.width, ratio.height);
    let wanted = Rect {
        x: crop_position.0,
        y: crop_position.1,
        width: crop_width,
        height: crop_height,
    };
    let crop = clamped(wanted, width, height);
    if crop_width > config.maximum_width_limit {
        proof {
            lemma_cropped_size_fits(
                width as int,
                height as int,
                ratio.width as int,
                ratio.height as int,
            );
            lemma_height_within_crop(
                config.maximum_width_limit as int,
                width as int,
                height as int,
                ratio.width as int,
                ratio.height as int,
            );
        }
        let tall: u64 = height_from_width(config.maximum_width_limit, ratio.width, ratio.height);
        ExportPlan { crop, resize: Some((config.maximum_width_limit, tall as u32)) }
    } else {
        ExportPlan { crop, resize: None }
    }
}

/// Why no frame is exported, if none is: the image was never cropped; the
/// cut-out or the frame would hold no pixel; the cut-out is to be scaled and
/// has a side, or would get one, that is too long for that; or a picture made
/// on the way cannot be held in memory.
pub open spec fn spec_frame_error(
    original: RasterView,
    crop_position: Option<(u32, u32)>,
    config: Config,
) -> Option<FrameError> {
    match crop_position {
        None => Some(FrameError::NotCropped),
        Some(corner) => {
            let plan = spec_export_plan(original.width, original.height, corner, config);
            let size = plan.spec_frame_size();
            if plan.crop.width == 0 || plan.crop.height == 0 || size.0 == 0 || size.1 == 0 {
                Some(FrameError::Empty)
            } else if plan.resize is Some && !(spec_resampling_fits(
                plan.crop.width,
                plan.crop.height,
                size.0,
                size.1,
            ) && spec_workable(size.0, size.1) && spec_workable(plan.crop.width, size.1)) {
                Some(FrameError::TooLarge)
            } else if !spec_workable(size.0, size.1) {
                Some(FrameError::TooLarge)
            } else {
                None
            }
        },
    }
}

/// Makes the frame that is exported from the original image: the crop is cut
/// out, scaled down where it is wider than the profile allows, and covered by
/// the translucent layer. The text is drawn on the frame that is returned, so
/// after the scaling and never before. The frame is never wider than the
/// profile's maximum width. A frame that was scaled was made from the cut-out
/// at the planned crop and from nothing else.
pub fn export_frame(original: &Raster, properties: &ImageProperties, config: &Config) -> (r:
    Result<Raster, FrameError>)
    requires
        original@.wf(),
        config.wf(),
    ensures
        r is Err == spec_frame_error(original@, properties.crop_position, *config) is Some,
        r is Err ==> Some(r->Err_0) == spec_frame_error(
            original@,
            properties.crop_position,
            *config,
        ),
        r is Ok ==> ({
            let plan = spec_export_plan(
                original@.width,
                original@.height,
                properties.crop_position->0,
                *config,
            );
            let frame = r->Ok_0@;
            &&& frame.wf()
            &&& (frame.width, frame.height) == plan.spec_frame_size()
            &&& frame.width <= config.maximum_width_limit
            &&& plan.resize is None ==> frame == spec_tinted(
                spec_cut(original@, plan.crop),
                properties@.translucent_layer_color,
            )
            &&& plan.resize is Some ==> exists|scaled: RasterView|
                {
                    &&& scaled.wf()
                    &&& (scaled.width, scaled.height) == plan.spec_frame_size()
                    &&& resampled_from(
                        spec_cut(original@, plan.crop).data,
                        plan.crop.width,
                        plan.crop.height,
                        scaled.width,
                        scaled.height,
                        scaled.data,
                    )
                    &&& frame == spec_tinted(scaled, properties@.translucent_layer_color)
                }
        }),
{
    let corner = match properties.crop_position {
        None => {
            return Err(FrameError::NotCropped);
        },
        Some(corner) => corner,
    };
    let plan = plan_export(original.width(), original.height(), corner, config);
    let (frame_width, frame_height) = plan.frame_size();
    if plan.crop.width == 0 || plan.crop.height == 0 || frame_width == 0 || frame_height == 0 {
        return Err(FrameError::Empty);
    }
    let part = cut(original, plan.crop);
    let sized = match plan.resize {
        Some((width, height)) => {
            if !resampling_fits(plan.crop.width, plan.crop.height, width, height) || !workable(
                width,
                height,
            ) || !workable(plan.crop.width, height) {
                return Err(FrameError::TooLarge);
            }
            resampled(&part, width, height)
        },
        None => {
            if !workable(plan.crop.width, plan.crop.height) {
                return Err(FrameError::TooLarge);
            }
            part
        },
    };
    let ghost before = sized@;
    let frame = tinted(sized, properties.translucent_layer_color);
    proof {
        if plan.resize is Some {
            assert(before.wf() && (before.width, before.height) == plan.spec_frame_size()
                && resampled_from(
                spec_cut(original@, plan.crop).data,
                plan.crop.width,
                plan.crop.height,
                before.width,
                before.height,
                before.data,
            ) && frame@ == spec_tinted(before, properties@.translucent_layer_color));
        }
    }
    Ok(frame)
}

/// How strongly a PNG file is compressed.
#[derive(Clone, Copy, Debug, PartialEq, Eq, Structural)]
pub enum PngCompression {
    Default,
    Fast,
    Best,
}

/// The filter applied to each row of a PNG file before it is compressed.
#[derive(Clone, Copy, Debug, PartialEq, Eq, Structural)]
pub enum PngFilter {
    NoFilter,
    Sub,
    Up,
    Avg,
    Paeth,
}

/// The layout of the pixels handed to an encoder.
#[derive(Clone, Copy, Debug, PartialEq, Eq, Structural)]
pub enum PixelLayout {
    Rgb8,
    Rgba8,
}

/// How the frame is encoded.
#[derive(Clone, Copy, Debug, PartialEq, Eq, Structural)]
pub enum Encoding {
    /// A PNG file.
    Png { compression: PngCompression, filter: PngFilter, layout: PixelLayout },
    /// A JPEG file; `quality` is a percentage.
    Jpeg { quality: u8, smoothing_factor: u8, layout: PixelLayout },
}

/// The encoding of each export format: a PNG file is compressed as far as the
/// encoder can, with the sub filter, from pixels with an alpha part; a JPEG
/// file has quality 100 and smoothing factor 1, from pixels without one. The
/// other kinds are not export formats.
pub open spec fn spec_encoding(format: ImageType) -> Option<Encoding> {
    match format {
        ImageType::Png => Some(
            Encoding::Png {
                compression: PngCompression::Best,
                filter: PngFilter::Sub,
                layout: PixelLayout::Rgba8,
            },
        ),
        ImageType::Jpeg => Some(
            Encoding::Jpeg { quality: 100, smoothing_factor: 1, layout: PixelLayout::Rgb8 },
        ),
        _ => None,
    }
}

/// The encoding of an export format, or nothing for a kind that is none.
pub fn encoding(format: ImageType) -> (r: Option<Encoding>)
    ensures
        r == spec_encoding(format),
{
    match format {
        ImageType::Png => Some(
            Encoding::Png {
                compression: PngCompression::Best,
                filter: PngFilter::Sub,
                layout: PixelLayout::Rgba8,
            },
        ),
        ImageType::Jpeg => Some(
            Encoding::Jpeg { quality: 100, smoothing_factor: 1, layout: PixelLayout::Rgb8 },
        ),
        _ => None,
    }
}

} // verus!
