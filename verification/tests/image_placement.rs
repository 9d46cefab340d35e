//! Image construction, sizing and placement.

use genpdf::error::ErrorKind;
use genpdf::images::Image;
use genpdf::render::{Command, Page};
use genpdf::{Alignment, Mm, Position, Rotation, Scale, Size};
use printpdf::image_crate::DynamicImage;

fn page_100x200() -> Page {
    Page::new(Size::new(Mm(100_000), Mm(200_000)))
}

#[test]
fn image_with_alpha_fails_construction_with_invalid_data() {
    let data = DynamicImage::new_rgba8(2, 2);
    let err = Image::from_dynamic_image(data).unwrap_err();
    assert_eq!(err.kind(), ErrorKind::InvalidData);
    assert!(err.message().contains("alpha channel"));
}

#[test]
fn image_without_alpha_is_accepted() {
    let data = DynamicImage::new_rgb8(2, 2);
    assert!(Image::from_dynamic_image(data).is_ok());
}

#[test]
fn alpha_is_rejected_before_any_geometry_or_backend_command() {
    // construction happens without any page: no command can have been
    // recorded, and the pixel dimensions are never inspected
    let err =
        Image::from_pixel_dimensions(DynamicImage::new_rgba8(1, 1), 1, 1, true).unwrap_err();
    assert_eq!(err.kind(), ErrorKind::InvalidData);
    let page = page_100x200();
    assert_eq!(page.get_layer_data(0).unwrap().commands().len(), 0);
}

#[test]
fn image_size_follows_pixels_dpi_and_scale() {
    // 300 by 600 pixels at the default 300 dots per inch give
    // 25.4 by 50.8 millimeters
    let data = DynamicImage::new_rgb8(300, 600);
    let image = Image::from_dynamic_image(data).unwrap();
    let mut page = page_100x200();
    let area = page.first_layer().area();
    let result = image.render(&area, &mut page).unwrap();
    assert!(!result.has_more);
    assert_eq!(result.size.width.0, 25_400);
    assert_eq!(result.size.height.0, 50_800);
}

#[test]
fn image_dpi_override_scales_the_size() {
    let data = DynamicImage::new_rgb8(300, 600);
    let image = Image::from_dynamic_image(data).unwrap().with_dpi(600_000);
    let mut page = page_100x200();
    let area = page.first_layer().area();
    let result = image.render(&area, &mut page).unwrap();
    assert_eq!(result.size.width.0, 12_700);
    assert_eq!(result.size.height.0, 25_400);
}

#[test]
fn image_scale_factors_apply_per_axis() {
    let data = DynamicImage::new_rgb8(300, 600);
    let image = Image::from_dynamic_image(data)
        .unwrap()
        .with_scale(Scale::new(500_000, 2_000_000));
    let mut page = page_100x200();
    let area = page.first_layer().area();
    let result = image.render(&area, &mut page).unwrap();
    assert_eq!(result.size.width.0, 12_700);
    assert_eq!(result.size.height.0, 101_600);
}

#[test]
fn unrotated_image_is_placed_at_its_height() {
    let data = DynamicImage::new_rgb8(300, 600);
    let image = Image::from_dynamic_image(data).unwrap();
    let mut page = page_100x200();
    let area = page.first_layer().area();
    image.render(&area, &mut page).unwrap();

    let cmds = page.get_layer_data(0).unwrap().commands();
    assert_eq!(cmds.len(), 1);
    match &cmds[0] {
        Command::AddImage {
            position,
            scale,
            rotation_ccw_millidegrees,
            dpi_milli,
            ..
        } => {
            // left aligned: no horizontal offset; the lower left corner
            // sits one image height below the top, flipped to user space
            assert_eq!(*position, Position::new(Mm(0), Mm(149_200)));
            assert_eq!(*scale, Scale::new(1_000_000, 1_000_000));
            assert_eq!(*rotation_ccw_millidegrees, 0);
            assert!(dpi_milli.is_none());
        }
        other => panic!("unexpected command: {:?}", other),
    }
}

#[test]
fn quarter_turned_image_centers_on_its_bounding_box() {
    let data = DynamicImage::new_rgb8(300, 600);
    let image = Image::from_dynamic_image(data)
        .unwrap()
        .with_alignment(Alignment::Center)
        .with_clockwise_rotation(Rotation::from_millidegrees(90_000));
    let mut page = page_100x200();
    let area = page.first_layer().area();
    let result = image.render(&area, &mut page).unwrap();

    // the bounding box swaps the axes exactly
    assert_eq!(result.size.width.0, 50_800);
    assert_eq!(result.size.height.0, 25_400);

    let cmds = page.get_layer_data(0).unwrap().commands();
    match &cmds[0] {
        Command::AddImage {
            position,
            rotation_ccw_millidegrees,
            ..
        } => {
            // centering leaves (100 - 50.8) / 2 on the left, and the
            // placement offset at a quarter turn is the image height
            assert_eq!(position.x.0, 24_600 + 50_800);
            assert_eq!(position.y.0, 200_000 - 25_400);
            // the backend counts counter-clockwise
            assert_eq!(*rotation_ccw_millidegrees, -90_000);
        }
        other => panic!("unexpected command: {:?}", other),
    }
}

#[test]
fn absolute_position_overrides_alignment_and_reports_no_size() {
    let data = DynamicImage::new_rgb8(300, 600);
    let image = Image::from_dynamic_image(data)
        .unwrap()
        .with_position(Position::new(Mm(10_000), Mm(20_000)));
    let mut page = page_100x200();
    let area = page.first_layer().area();
    let result = image.render(&area, &mut page).unwrap();
    assert_eq!(result.size, Size::new(Mm(0), Mm(0)));

    let cmds = page.get_layer_data(0).unwrap().commands();
    match &cmds[0] {
        Command::AddImage { position, .. } => {
            // the configured anchor still gains the bounding-box offset
            assert_eq!(*position, Position::new(Mm(10_000), Mm(200_000 - 70_800)));
        }
        other => panic!("unexpected command: {:?}", other),
    }
}

#[test]
fn right_alignment_consumes_the_leftover_space() {
    let data = DynamicImage::new_rgb8(300, 600);
    let image = Image::from_dynamic_image(data)
        .unwrap()
        .with_alignment(Alignment::Right);
    let mut page = page_100x200();
    let area = page.first_layer().area();
    image.render(&area, &mut page).unwrap();
    let cmds = page.get_layer_data(0).unwrap().commands();
    match &cmds[0] {
        Command::AddImage { position, .. } => {
            assert_eq!(position.x.0, 100_000 - 25_400);
        }
        other => panic!("unexpected command: {:?}", other),
    }
}

#[test]
fn image_setters_can_replace_the_builders() {
    let data = DynamicImage::new_rgb8(10, 10);
    let mut image = Image::from_dynamic_image(data).unwrap();
    image.set_alignment(Alignment::Center);
    image.set_scale(Scale::new(2_000_000, 2_000_000));
    image.set_clockwise_rotation(Rotation::from_millidegrees(-45_000));
    image.set_dpi(100_000);
    image.set_position(Position::new(Mm(1), Mm(2)));
    let mut page = page_100x200();
    let area = page.first_layer().area();
    let result = image.render(&area, &mut page).unwrap();
    // an absolute position reports no consumed size
    assert_eq!(result.size, Size::new(Mm(0), Mm(0)));
    assert_eq!(page.get_layer_data(0).unwrap().commands().len(), 1);
}
