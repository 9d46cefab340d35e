//! Bounding-box geometry of rotated rectangles.

use genpdf::images::bounding_box_offset_and_size;
use genpdf::{Mm, Position, Rotation, Size};

/// Millimeters to the library's fixed-point unit.
fn um(v: f64) -> i64 {
    (v * 1000.0).round() as i64
}

/// Two fixed-point lengths agree within the fixed-point tolerance.
fn assert_close(left: i64, right: i64) {
    assert!(
        (left - right).abs() <= 2,
        "assertion failed: left: {}, right: {}",
        left,
        right
    );
}

fn bbox(size: Size, rotation_deg: f64) -> (Position, Size) {
    let rotation = Rotation::from_millidegrees((rotation_deg * 1000.0).round() as i64);
    bounding_box_offset_and_size(&rotation, &size)
}

fn size_mm(w: f64, h: f64) -> Size {
    Size::new(Mm(um(w)), Mm(um(h)))
}

fn assert_size(expected: Size, actual: Size) {
    assert_close(actual.width.0, expected.width.0);
    assert_close(actual.height.0, expected.height.0);
}

fn test_position(size: Size, rotation: f64, position: Position) {
    println!("rotation = {}", rotation);
    let actual = bbox(size, rotation).0;
    assert_close(actual.x.0, position.x.0);
    assert_close(actual.y.0, position.y.0);
}

fn pos_mm(x: f64, y: f64) -> Position {
    Position::new(Mm(um(x)), Mm(um(y)))
}

#[test]
fn test_bounding_box_size_square_0_deg() {
    let size = size_mm(100.0, 100.0);
    for rotation in &[-180.0, -90.0, 0.0, 90.0, 180.0] {
        println!("rotation = {}", rotation);
        assert_size(size, bbox(size, *rotation).1);
    }
}

#[test]
fn test_bounding_box_size_square_30_deg() {
    let size = size_mm(100.0, 100.0);
    let bb_width = (60.0f64.to_radians().sin() + 30.0f64.to_radians().sin()) * 100.0;
    let bb_size = size_mm(bb_width, bb_width);
    for rotation in &[-150.0, -120.0, -30.0, -60.0, 30.0, 60.0, 120.0, 150.0] {
        println!("rotation = {}", rotation);
        assert_size(bb_size, bbox(size, *rotation).1);
    }
}

#[test]
fn test_bounding_box_size_square_45_deg() {
    let size = size_mm(100.0, 100.0);
    let bb_width = (2.0f64 * 100.0f64.powf(2.0)).sqrt();
    let bb_size = size_mm(bb_width, bb_width);
    for rotation in &[-135.0, -45.0, 45.0, 135.0] {
        println!("rotation = {}", rotation);
        assert_size(bb_size, bbox(size, *rotation).1);
    }
}

#[test]
fn test_bounding_box_position_square_30_deg() {
    let size = size_mm(100.0, 100.0);
    let bb_width = 30.0f64.to_radians().sin() * 100.0 + 60.0f64.to_radians().sin() * 100.0;

    let w30 = 30.0f64.to_radians().cos() * 100.0;
    let w60 = 60.0f64.to_radians().cos() * 100.0;

    test_position(size, -150.0, pos_mm(w30, 0.0));
    test_position(size, -120.0, pos_mm(w60, 0.0));
    test_position(size, -60.0, pos_mm(0.0, w60));
    test_position(size, -30.0, pos_mm(0.0, w30));
    test_position(size, 30.0, pos_mm(w60, bb_width));
    test_position(size, 60.0, pos_mm(w30, bb_width));
    test_position(size, 120.0, pos_mm(bb_width, bb_width - w60));
    test_position(size, 150.0, pos_mm(bb_width, bb_width - w30));
}

#[test]
fn test_bounding_box_position_square_45_deg() {
    let size = size_mm(100.0, 100.0);
    let bb_width = (2.0f64 * 100.0f64.powf(2.0)).sqrt();

    test_position(size, -135.0, pos_mm(bb_width / 2.0, 0.0));
    test_position(size, -45.0, pos_mm(0.0, bb_width / 2.0));
    test_position(size, 45.0, pos_mm(bb_width / 2.0, bb_width));
    test_position(size, 135.0, pos_mm(bb_width, bb_width / 2.0));
}

#[test]
fn test_bounding_box_position_square_90_deg() {
    let size = size_mm(100.0, 100.0);
    test_position(size, -180.0, pos_mm(100.0, 0.0));
    test_position(size, -90.0, pos_mm(0.0, 0.0));
    test_position(size, 0.0, pos_mm(0.0, 100.0));
    test_position(size, 90.0, pos_mm(100.0, 100.0));
    test_position(size, 180.0, pos_mm(100.0, 0.0));
}

#[test]
fn test_bounding_box_size_rectangle_0_deg() {
    let size = size_mm(200.0, 100.0);
    for rotation in &[-180.0, 0.0, 180.0] {
        println!("rotation = {}", rotation);
        assert_size(size, bbox(size, *rotation).1);
    }
}

#[test]
fn test_bounding_box_size_rectangle_30_deg() {
    let size = size_mm(200.0, 100.0);
    let bb_width = 60.0f64.to_radians().sin() * 200.0 + 30.0f64.to_radians().sin() * 100.0;
    let bb_height = 60.0f64.to_radians().sin() * 100.0 + 30.0f64.to_radians().sin() * 200.0;
    let bb_size = size_mm(bb_width, bb_height);
    for rotation in &[-150.0, -30.0, 30.0, 150.0] {
        println!("rotation = {}", rotation);
        assert_size(bb_size, bbox(size, *rotation).1);
    }
}

#[test]
fn test_bounding_box_size_rectangle_45_deg() {
    let size = size_mm(200.0, 100.0);
    let bb_width = 45.0f64.to_radians().sin() * (200.0 + 100.0);
    let bb_size = size_mm(bb_width, bb_width);
    for rotation in &[-135.0, -45.0, 45.0, 135.0] {
        println!("rotation = {}", rotation);
        assert_size(bb_size, bbox(size, *rotation).1);
    }
}

#[test]
fn test_bounding_box_size_rectangle_60_deg() {
    let size = size_mm(200.0, 100.0);
    let bb_width = 30.0f64.to_radians().sin() * 200.0 + 60.0f64.to_radians().sin() * 100.0;
    let bb_height = 30.0f64.to_radians().sin() * 100.0 + 60.0f64.to_radians().sin() * 200.0;
    let bb_size = size_mm(bb_width, bb_height);
    for rotation in &[-120.0, -60.0, 60.0, 120.0] {
        println!("rotation = {}", rotation);
        assert_size(bb_size, bbox(size, *rotation).1);
    }
}

#[test]
fn test_bounding_box_size_rectangle_90_deg() {
    let size = size_mm(200.0, 100.0);
    let bb_size = size_mm(100.0, 200.0);
    for rotation in &[-90.0, 90.0] {
        println!("rotation = {}", rotation);
        assert_size(bb_size, bbox(size, *rotation).1);
    }
}

#[test]
fn test_bounding_box_position_rectangle_30_deg() {
    let size = size_mm(200.0, 100.0);
    let bb_width = 30.0f64.to_radians().sin() * 200.0 + 60.0f64.to_radians().sin() * 100.0;
    let bb_height = 30.0f64.to_radians().sin() * 100.0 + 60.0f64.to_radians().sin() * 200.0;

    let h30 = 30.0f64.to_radians().cos() * 100.0;
    let h60 = 60.0f64.to_radians().cos() * 100.0;
    let w30 = 30.0f64.to_radians().cos() * 200.0;
    let w60 = 60.0f64.to_radians().cos() * 200.0;

    test_position(size, -150.0, pos_mm(w30, 0.0));
    test_position(size, -120.0, pos_mm(w60, 0.0));
    test_position(size, -60.0, pos_mm(0.0, h60));
    test_position(size, -30.0, pos_mm(0.0, h30));
    test_position(size, 30.0, pos_mm(h60, bb_width));
    test_position(size, 60.0, pos_mm(h30, bb_height));
    test_position(size, 120.0, pos_mm(bb_width, bb_height - h60));
    test_position(size, 150.0, pos_mm(bb_height, bb_width - h30));
}

#[test]
fn test_bounding_box_position_rectangle_45_deg() {
    let size = size_mm(200.0, 100.0);
    let bb_width = 45.0f64.to_radians().sin() * (200.0 + 100.0);

    test_position(size, -135.0, pos_mm(2.0 * bb_width / 3.0, 0.0));
    test_position(size, -45.0, pos_mm(0.0, bb_width / 3.0));
    test_position(size, 45.0, pos_mm(bb_width / 3.0, bb_width));
    test_position(size, 135.0, pos_mm(bb_width, 2.0 * bb_width / 3.0));
}

#[test]
fn test_bounding_box_position_rectangle_90_deg() {
    let size = size_mm(200.0, 100.0);
    test_position(size, -180.0, pos_mm(200.0, 0.0));
    test_position(size, -90.0, pos_mm(0.0, 0.0));
    test_position(size, 0.0, pos_mm(0.0, 100.0));
    test_position(size, 90.0, pos_mm(100.0, 200.0));
    test_position(size, 180.0, pos_mm(200.0, 0.0));
}
