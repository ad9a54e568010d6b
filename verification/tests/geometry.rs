use wm_core::geometry::{floor_pixel, from_pixel, saturate_i64, to_pixel, Point, MAX_PIXEL, SUBPIXELS};

#[test]
fn to_pixel_rounds_down() {
    assert_eq!(to_pixel(0), 0);
    assert_eq!(to_pixel(255), 0);
    assert_eq!(to_pixel(256), 1);
    assert_eq!(to_pixel(-1), -1);
    assert_eq!(to_pixel(-256), -1);
    assert_eq!(to_pixel(-257), -2);
    assert_eq!(to_pixel(i32::MAX), MAX_PIXEL);
    assert_eq!(to_pixel(i32::MIN), -8_388_608);
}

#[test]
fn floor_pixel_rounds_down() {
    assert_eq!(floor_pixel(17_920), 70);
    assert_eq!(floor_pixel(-1), -1);
    assert_eq!(floor_pixel(-512), -2);
    assert_eq!(floor_pixel(-513), -3);
    assert_eq!(floor_pixel(i64::MIN), i64::MIN / 256);
    assert_eq!(floor_pixel(i64::MAX), i64::MAX / 256);
}

#[test]
fn from_pixel_scales_and_saturates() {
    assert_eq!(SUBPIXELS, 256);
    assert_eq!(from_pixel(50), 12_800);
    assert_eq!(from_pixel(-3), -768);
    assert_eq!(from_pixel(MAX_PIXEL), MAX_PIXEL * 256);
    assert_eq!(from_pixel(MAX_PIXEL + 1), i32::MAX);
    assert_eq!(from_pixel(i32::MIN), i32::MIN);
}

#[test]
fn saturate_stops_at_the_bounds() {
    assert_eq!(saturate_i64(5), 5);
    assert_eq!(saturate_i64(i32::MAX as i64 + 1), i32::MAX);
    assert_eq!(saturate_i64(i32::MIN as i64 - 1), i32::MIN);
    assert_eq!(saturate_i64(i64::MAX), i32::MAX);
    assert_eq!(saturate_i64(i64::MIN), i32::MIN);
}

#[test]
fn point_converts_both_ways() {
    let point = Point::from_pixels(80, -2);
    assert_eq!(point, Point { x: 20_480, y: -512 });
    assert_eq!(point.to_pixels(), (80, -2));
    assert_eq!(Point { x: 20_481, y: -513 }.to_pixels(), (80, -3));
}
