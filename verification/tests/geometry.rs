use animate_core::geometry::{mul_div_to_zero, travel_axis, Rect};
use animate_core::origin::{parse_px, parse_transform_origin};

#[test]
fn travel_is_position_difference_without_origin_offset() {
    // Same size, origin at the corner: travel is just the old position
    // minus the new one.
    assert_eq!(travel_axis(0, 50, 100, 50, 0), -100);
    assert_eq!(travel_axis(100, 50, 0, 50, 0), 100);
}

#[test]
fn travel_rescales_the_origin_offset() {
    // The element doubled in width: the origin point sat at 10px of 20px
    // and now sits at 10px of 40px.
    // dx = 0 + 20 * 10 / 40 - (0 + 10) = 5 - 10 = -5.
    assert_eq!(travel_axis(0, 20, 0, 40, 10), -5);
}

#[test]
fn identical_axis_travels_nowhere() {
    assert_eq!(travel_axis(37, 20, 37, 20, 13), 0);
    assert_eq!(travel_axis(-5, 7, -5, 7, -3), 0);
}

#[test]
fn division_truncates_toward_zero() {
    assert_eq!(mul_div_to_zero(7, 1, 2), 3);
    assert_eq!(mul_div_to_zero(7, -1, 2), -3);
    assert_eq!(mul_div_to_zero(5, 3, 4), 3);
    assert_eq!(mul_div_to_zero(5, -3, 4), -3);
}

#[test]
fn degenerate_rect_has_a_zero_side() {
    let flat = Rect { left: 0, top: 0, width: 10, height: 0 };
    assert!(flat.degenerate());
    let real = Rect { left: 0, top: 0, width: 10, height: 4 };
    assert!(!real.degenerate());
}

#[test]
fn parses_whole_pixel_lengths() {
    assert_eq!(parse_px("0px"), Some(0));
    assert_eq!(parse_px("42px"), Some(42));
    assert_eq!(parse_px("-17px"), Some(-17));
}

#[test]
fn fractional_pixels_truncate_toward_zero() {
    assert_eq!(parse_px("10.75px"), Some(10));
    assert_eq!(parse_px("-0.5px"), Some(0));
    assert_eq!(parse_px("-1.5px"), Some(-1));
}

#[test]
fn malformed_lengths_are_rejected() {
    assert_eq!(parse_px(""), None);
    assert_eq!(parse_px("px"), None);
    assert_eq!(parse_px("10"), None);
    assert_eq!(parse_px("10em"), None);
    assert_eq!(parse_px("10.px"), None);
    assert_eq!(parse_px(".5px"), None);
    assert_eq!(parse_px("10pxx"), None);
    assert_eq!(parse_px("--3px"), None);
}

#[test]
fn out_of_bounds_lengths_are_rejected() {
    assert_eq!(parse_px("99999999999px"), None);
    assert_eq!(parse_px("1073741824px"), Some(0x4000_0000));
    assert_eq!(parse_px("1073741825px"), None);
    // Leading zeros do not overflow anything.
    assert_eq!(parse_px("000000000000042px"), Some(42));
}

#[test]
fn parses_a_two_length_origin() {
    assert_eq!(parse_transform_origin("12px 34px"), Some((12, 34)));
    assert_eq!(parse_transform_origin("12.5px -3px 0px"), Some((12, -3)));
}

#[test]
fn rejects_an_incomplete_or_malformed_origin() {
    assert_eq!(parse_transform_origin(""), None);
    assert_eq!(parse_transform_origin("12px"), None);
    assert_eq!(parse_transform_origin("12px 50%"), None);
    assert_eq!(parse_transform_origin("center center"), None);
}
