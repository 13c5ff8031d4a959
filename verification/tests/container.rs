use image::Pixel;
use post_maker::config::Config;
use post_maker::container::{FrameError, ImageContainer, PREVIEW_HEIGHT};
use post_maker::properties::ImageProperties;
use post_maker::raster::Raster;

fn numbered(width: u32, height: u32) -> Raster {
    let count = 3 * width as usize * height as usize;
    let data: Vec<u8> = (0..count).map(|k| (k % 251) as u8).collect();
    Raster::new(width, height, data).unwrap()
}

#[test]
fn a_raster_needs_three_samples_for_each_pixel() {
    assert!(Raster::new(2, 2, vec![0; 12]).is_some());
    assert!(Raster::new(2, 2, vec![0; 11]).is_none());
    assert!(Raster::new(2, 2, vec![0; 13]).is_none());
    assert!(Raster::new(0, 7, Vec::new()).is_some());
    assert!(Raster::new(u32::MAX, u32::MAX, Vec::new()).is_none());
    let raster = Raster::new(2, 1, vec![1, 2, 3, 4, 5, 6]).unwrap();
    assert_eq!(raster.width(), 2);
    assert_eq!(raster.height(), 1);
    assert_eq!(raster.data(), &vec![1, 2, 3, 4, 5, 6]);
    assert_eq!(raster.clone(), raster);
    assert_eq!(raster.into_data(), vec![1, 2, 3, 4, 5, 6]);
}

#[test]
fn opening_records_the_original_and_seeds_the_heights() {
    let config = Config::default();
    let mut props = ImageProperties::default();
    let container = ImageContainer::new(numbered(40, 50), &mut props, &config);
    assert_eq!(props.original_dimension, (40, 50));
    assert_eq!(props.quote_position, 35);
    assert_eq!(props.subquote_position, 40);
    assert_eq!(props.subquote2_position, 45);
    assert_eq!(props.tag_position, 25);
    assert_eq!(props.tag2_position, 47);
    assert_eq!(container.image(), &numbered(40, 50));
    assert_eq!(container.buffer(), &numbered(40, 50));
}

#[test]
fn the_crop_is_centred_where_no_corner_is_given() {
    let config = Config::default();
    let mut props = ImageProperties::default();
    let mut container = ImageContainer::new(numbered(6, 5), &mut props, &config);
    container.apply_crop(&mut props, &config);
    assert_eq!(props.crop_position, Some((1, 0)));
    assert_eq!(props.dimension, (4, 5));
    assert_eq!(props.original_dimension, (6, 5));
    let image = container.image();
    assert_eq!((image.width(), image.height()), (4, 5));
    let source = numbered(6, 5);
    for y in 0..5usize {
        for x in 0..4usize {
            for c in 0..3usize {
                assert_eq!(
                    image.data()[(y * 4 + x) * 3 + c],
                    source.data()[(y * 6 + x + 1) * 3 + c]
                );
            }
        }
    }
    assert_eq!(container.buffer(), container.image());
}

#[test]
fn the_centred_crop_of_the_original_is_stored_whatever_the_working_size() {
    let config = Config::default();
    let mut props = ImageProperties::default();
    let mut container = ImageContainer::new(numbered(6, 5), &mut props, &config);
    props.original_dimension = (6000, 5000);
    container.apply_crop(&mut props, &config);
    assert_eq!(props.crop_position, Some((1000, 0)));
    assert_eq!(props.dimension, (4, 5));
}

#[test]
fn the_crop_is_cut_at_the_corner_that_is_given() {
    let config = Config::default();
    let mut props = ImageProperties::default();
    let mut container = ImageContainer::new(numbered(6, 5), &mut props, &config);
    assert_eq!(container.apply_crop_position(&mut props, &config, 2, 0), Ok(()));
    assert_eq!(props.crop_position, Some((2, 0)));
    assert_eq!(props.dimension, (4, 5));
    let image = container.image();
    assert_eq!((image.width(), image.height()), (4, 5));
    let source = numbered(6, 5);
    assert_eq!(image.data()[0], source.data()[2 * 3]);
    assert_eq!(image.data()[(4 * 4 + 3) * 3 + 2], source.data()[(4 * 6 + 5) * 3 + 2]);
    assert_eq!(container.buffer(), container.image());
}

#[test]
fn the_corner_is_carried_from_the_original_to_the_working_copy() {
    let config = Config::default();
    let mut props = ImageProperties::default();
    let mut container = ImageContainer::new(numbered(6, 5), &mut props, &config);
    props.original_dimension = (6000, 5000);
    assert_eq!(container.apply_crop_position(&mut props, &config, 1999, 0), Ok(()));
    assert_eq!(props.crop_position, Some((1999, 0)));
    let image = container.image();
    assert_eq!((image.width(), image.height()), (4, 5));
    assert_eq!(image.data()[0], numbered(6, 5).data()[3]);
}

#[test]
fn a_crop_that_reaches_beyond_the_image_is_cut_short() {
    let config = Config::default();
    let mut props = ImageProperties::default();
    let mut container = ImageContainer::new(numbered(6, 5), &mut props, &config);
    assert_eq!(container.apply_crop_position(&mut props, &config, 5, 0), Ok(()));
    assert_eq!((container.image().width(), container.image().height()), (1, 5));
    assert_eq!(props.dimension, (4, 5));
}

#[test]
fn no_corner_is_carried_over_from_an_original_without_a_size() {
    let config = Config::default();
    let mut props = ImageProperties::default();
    let mut container = ImageContainer::new(numbered(0, 0), &mut props, &config);
    assert_eq!(
        container.apply_crop_position(&mut props, &config, 1, 1),
        Err(FrameError::Empty)
    );
    assert_eq!(props.crop_position, None);
}

#[test]
fn the_preview_is_as_high_as_the_preview_height() {
    assert_eq!(PREVIEW_HEIGHT, 500);
    let config = Config::default();
    let mut props = ImageProperties::default();
    let mut container = ImageContainer::new(numbered(6, 5), &mut props, &config);
    container.apply_crop(&mut props, &config);
    assert_eq!(container.apply_resize(&mut props), Ok(()));
    assert_eq!(props.dimension, (400, 500));
    assert_eq!(props.original_dimension, (6, 5));
    let image = container.image();
    assert_eq!((image.width(), image.height()), (400, 500));
    assert_eq!(image.data().len(), 3 * 400 * 500);
    assert_eq!(container.buffer(), container.image());
}

#[test]
fn the_preview_is_the_thumbnail_of_the_image_crate() {
    let config = Config::default();
    let mut props = ImageProperties::default();
    let mut container = ImageContainer::new(numbered(8, 10), &mut props, &config);
    container.apply_crop(&mut props, &config);
    assert_eq!(props.dimension, (8, 10));
    assert_eq!(container.apply_resize(&mut props), Ok(()));
    let source = image::RgbImage::from_raw(8, 10, numbered(8, 10).into_data()).unwrap();
    let expected = image::imageops::thumbnail(&source, 400, 500);
    assert_eq!(container.image().data(), expected.as_raw());
}

#[test]
fn a_large_picture_is_scaled_down_for_the_preview() {
    let config = Config::default();
    let mut props = ImageProperties::default();
    let mut container = ImageContainer::new(numbered(800, 1000), &mut props, &config);
    container.apply_crop(&mut props, &config);
    assert_eq!(container.apply_resize(&mut props), Ok(()));
    assert_eq!(props.dimension, (400, 500));
    assert_eq!((container.image().width(), container.image().height()), (400, 500));
    assert_eq!(props.original_dimension, (800, 1000));
}

#[test]
fn a_size_without_a_height_is_not_resized() {
    let config = Config::default();
    let mut props = ImageProperties::default();
    let mut container = ImageContainer::new(numbered(6, 5), &mut props, &config);
    assert_eq!(props.dimension, (0, 0));
    assert_eq!(container.apply_resize(&mut props), Err(FrameError::Empty));
    assert_eq!(container.image(), &numbered(6, 5));
    assert_eq!(props.dimension, (0, 0));
}

#[test]
fn a_picture_far_wider_than_its_preview_is_not_resized() {
    let config = Config::default();
    let mut props = ImageProperties::default();
    let mut container = ImageContainer::new(numbered(6177, 1), &mut props, &config);
    props.dimension = (1, 500);
    assert_eq!(container.apply_resize(&mut props), Err(FrameError::TooLarge));
    assert_eq!(props.dimension, (1, 500));
    assert_eq!(container.image(), &numbered(6177, 1));
    props.dimension = (2, 500);
    assert_eq!(container.apply_resize(&mut props), Ok(()));
    assert_eq!((container.image().width(), container.image().height()), (2, 500));
}

#[test]
fn the_layer_is_laid_over_a_copy() {
    let config = Config::default();
    let mut props = ImageProperties::default();
    let container = ImageContainer::new(numbered(6, 5), &mut props, &config);
    props.translucent_layer_color = [0, 0, 0, 0];
    assert_eq!(container.tinted_copy(&props).unwrap(), numbered(6, 5));
    props.translucent_layer_color = [3, 2, 1, 255];
    let copy = container.tinted_copy(&props).unwrap();
    for pixel in copy.data().chunks(3) {
        assert_eq!(pixel, [3, 2, 1]);
    }
    assert_eq!(container.image(), &numbered(6, 5));
}

#[test]
fn a_translucent_layer_is_blended_as_the_image_crate_blends() {
    let config = Config::default();
    let mut props = ImageProperties::default();
    let container = ImageContainer::new(numbered(3, 2), &mut props, &config);
    props.translucent_layer_color = [20, 22, 25, 197];
    let copy = container.tinted_copy(&props).unwrap();
    let source = numbered(3, 2);
    for (under, got) in source.data().chunks(3).zip(copy.data().chunks(3)) {
        let mut pixel = image::Rgba([under[0], under[1], under[2], 255]);
        pixel.blend(&image::Rgba([20, 22, 25, 197]));
        assert_eq!(got, &pixel.0[0..3]);
    }
    assert_ne!(copy, source);
}

#[test]
fn what_was_drawn_is_shown() {
    let config = Config::default();
    let mut props = ImageProperties::default();
    let mut container = ImageContainer::new(numbered(6, 5), &mut props, &config);
    let drawn = Raster::new(6, 5, vec![7; 90]).unwrap();
    container.show(drawn.clone());
    assert_eq!(container.buffer(), &drawn);
    assert_eq!(container.image(), &numbered(6, 5));
}
