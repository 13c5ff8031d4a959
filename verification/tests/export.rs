use post_maker::config::Config;
use post_maker::container::FrameError;
use post_maker::export::{
    encoding, export_frame, plan_export, Encoding, ExportPlan, PixelLayout, PngCompression,
    PngFilter,
};
use post_maker::geometry::Rect;
use post_maker::image_info::ImageType;
use post_maker::properties::ImageProperties;
use post_maker::raster::{averaging_fits, resampling_fits, workable, Raster, RESAMPLING_LIMIT};

fn numbered(width: u32, height: u32) -> Raster {
    let count = 3 * width as usize * height as usize;
    let data: Vec<u8> = (0..count).map(|k| (k % 251) as u8).collect();
    Raster::new(width, height, data).unwrap()
}

#[test]
fn a_wide_crop_is_scaled_down_to_the_maximum_before_the_text_is_drawn() {
    // format jpeg, maximum width 1080, crop width 4000
    let mut config = Config::default();
    config.image_format = ImageType::Jpeg;
    let plan = plan_export(4000, 5000, (0, 0), &config);
    assert_eq!(
        plan,
        ExportPlan {
            crop: Rect { x: 0, y: 0, width: 4000, height: 5000 },
            resize: Some((1080, 1350)),
        }
    );
    assert_eq!(plan.frame_size(), (1080, 1350));
}

#[test]
fn a_crop_within_the_maximum_is_exported_as_it_is() {
    let config = Config::default();
    let plan = plan_export(1080, 1350, (0, 0), &config);
    assert_eq!(
        plan,
        ExportPlan { crop: Rect { x: 0, y: 0, width: 1080, height: 1350 }, resize: None }
    );
    assert_eq!(plan.frame_size(), (1080, 1350));
    let plan = plan_export(1081, 1352, (0, 0), &config);
    assert_eq!(plan.resize, Some((1080, 1350)));
}

#[test]
fn the_crop_is_cut_at_its_stored_corner() {
    let config = Config::default();
    let plan = plan_export(6000, 5000, (1000, 0), &config);
    assert_eq!(plan.crop, Rect { x: 1000, y: 0, width: 4000, height: 5000 });
    let plan = plan_export(6000, 5000, (2500, 10), &config);
    assert_eq!(plan.crop, Rect { x: 2500, y: 10, width: 3500, height: 4990 });
    assert_eq!(plan.resize, Some((1080, 1350)));
    let plan = plan_export(6000, 5000, (7000, 6000), &config);
    assert_eq!(plan.crop, Rect { x: 6000, y: 5000, width: 0, height: 0 });
}

#[test]
fn the_frame_is_never_wider_than_the_maximum() {
    let mut config = Config::default();
    for maximum in [1u32, 2, 10, 1079, 1080, 1081, 5000] {
        config.maximum_width_limit = maximum;
        for (width, height) in [(1u32, 1u32), (10, 10), (1080, 1350), (4000, 5000), (6000, 100), (100, 6000)] {
            for corner in [(0u32, 0u32), (5, 5), (10_000, 0)] {
                let plan = plan_export(width, height, corner, &config);
                assert!(plan.frame_size().0 <= maximum);
                assert!(plan.crop.x + plan.crop.width <= width);
                assert!(plan.crop.y + plan.crop.height <= height);
            }
        }
    }
}

#[test]
fn each_format_has_its_encoding() {
    assert_eq!(
        encoding(ImageType::Png),
        Some(Encoding::Png {
            compression: PngCompression::Best,
            filter: PngFilter::Sub,
            layout: PixelLayout::Rgba8,
        })
    );
    assert_eq!(
        encoding(ImageType::Jpeg),
        Some(Encoding::Jpeg { quality: 100, smoothing_factor: 1, layout: PixelLayout::Rgb8 })
    );
    assert_eq!(encoding(ImageType::Webp), None);
    assert_eq!(encoding(ImageType::Unsupported), None);
}

#[test]
fn the_exported_frame_is_scaled_down_to_the_maximum() {
    let mut config = Config::default();
    config.maximum_width_limit = 10;
    let mut props = ImageProperties::default();
    props.crop_position = Some((0, 0));
    props.translucent_layer_color = [0, 0, 0, 0];
    let frame = export_frame(&numbered(40, 50), &props, &config).unwrap();
    assert_eq!((frame.width(), frame.height()), (10, 12));
    assert_eq!(frame.data().len(), 3 * 10 * 12);
}

#[test]
fn the_exported_frame_is_the_crop_under_the_layer() {
    let config = Config::default();
    let mut props = ImageProperties::default();
    props.crop_position = Some((1, 0));
    props.translucent_layer_color = [0, 0, 0, 0];
    let original = numbered(6, 5);
    let frame = export_frame(&original, &props, &config).unwrap();
    assert_eq!((frame.width(), frame.height()), (4, 5));
    let source = original.data();
    for y in 0..5usize {
        for x in 0..4usize {
            for c in 0..3usize {
                assert_eq!(frame.data()[(y * 4 + x) * 3 + c], source[(y * 6 + x + 1) * 3 + c]);
            }
        }
    }
    props.translucent_layer_color = [9, 8, 7, 255];
    let frame = export_frame(&original, &props, &config).unwrap();
    for pixel in frame.data().chunks(3) {
        assert_eq!(pixel, [9, 8, 7]);
    }
}

#[test]
fn an_image_without_a_crop_is_not_exported() {
    let config = Config::default();
    let props = ImageProperties::default();
    assert_eq!(export_frame(&numbered(6, 5), &props, &config), Err(FrameError::NotCropped));
}

#[test]
fn a_crop_beside_the_image_is_not_exported() {
    let config = Config::default();
    let mut props = ImageProperties::default();
    props.crop_position = Some((6, 0));
    assert_eq!(export_frame(&numbered(6, 5), &props, &config), Err(FrameError::Empty));
    props.crop_position = Some((0, 0));
    assert_eq!(export_frame(&numbered(0, 0), &props, &config), Err(FrameError::Empty));
}

#[test]
fn a_frame_without_a_height_is_not_exported() {
    let mut config = Config::default();
    config.image_ratio = post_maker::geometry::AspectRatio { width: 100, height: 1 };
    config.maximum_width_limit = 50;
    let mut props = ImageProperties::default();
    props.crop_position = Some((0, 0));
    // the cut-out is 200 x 2, the frame would be 50 x 0
    assert_eq!(export_frame(&numbered(200, 2), &props, &config), Err(FrameError::Empty));
}

#[test]
fn a_cut_out_with_a_side_too_long_to_be_scaled_is_not_exported() {
    let mut config = Config::default();
    config.image_ratio = post_maker::geometry::AspectRatio { width: 10_000, height: 1 };
    config.maximum_width_limit = 20_000;
    let mut props = ImageProperties::default();
    props.crop_position = Some((0, 0));
    // the cut-out is 70000 x 7 and would be scaled to 20000 x 2
    assert_eq!(export_frame(&numbered(70_000, 7), &props, &config), Err(FrameError::TooLarge));
    // a cut-out of the same size that is not scaled is exported
    config.maximum_width_limit = 70_000;
    let frame = export_frame(&numbered(70_000, 7), &props, &config).unwrap();
    assert_eq!((frame.width(), frame.height()), (70_000, 7));
}

#[test]
fn a_picture_is_scaled_only_while_no_side_is_too_long() {
    assert_eq!(RESAMPLING_LIMIT, 65_536);
    assert!(resampling_fits(4000, 5000, 1080, 1350));
    assert!(resampling_fits(65_536, 65_536, 65_536, 65_536));
    assert!(!resampling_fits(65_537, 1, 1, 1));
    assert!(!resampling_fits(1, 65_537, 1, 1));
    assert!(!resampling_fits(1, 1, 65_537, 1));
    assert!(!resampling_fits(1, 1, 1, 65_537));
}

#[test]
fn a_picture_beyond_memory_is_not_workable() {
    assert!(workable(4000, 5000));
    assert!(workable(0, u32::MAX));
    assert!(!workable(u32::MAX, u32::MAX));
}

#[test]
fn a_picture_is_averaged_only_where_the_sums_fit() {
    assert!(averaging_fits(4000, 5000, 400, 500));
    assert!(averaging_fits(8, 10, 400, 500));
    assert!(averaging_fits(u32::MAX, u32::MAX, 0, 500));
    assert!(averaging_fits(6176, 1, 1, 500));
    assert!(!averaging_fits(6177, 1, 1, 500));
    assert!(!averaging_fits(u32::MAX, u32::MAX, 1, 1));
}
