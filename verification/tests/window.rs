use rustmade::error::PlatformError;
use rustmade::window::dimension_from_rect;

#[test]
fn client_rect_yields_width_and_height() {
    let dim = dimension_from_rect(0, 0, 1280, 720).unwrap();
    assert_eq!(dim.width, 1280);
    assert_eq!(dim.height, 720);
}

#[test]
fn offset_rect_measures_extent_not_corners() {
    let dim = dimension_from_rect(100, 50, 740, 530).unwrap();
    assert_eq!(dim.width, 640);
    assert_eq!(dim.height, 480);
}

#[test]
fn empty_rect_is_a_valid_zero_dimension() {
    let dim = dimension_from_rect(10, 20, 10, 20).unwrap();
    assert_eq!(dim.width, 0);
    assert_eq!(dim.height, 0);
}

#[test]
fn inverted_rect_fails_the_dimension_query() {
    let result = dimension_from_rect(10, 5, 3, 7);
    assert_eq!(result.err(), Some(PlatformError::DimensionQueryError));
}

#[test]
fn oversized_extent_fails_the_dimension_query() {
    let result = dimension_from_rect(-2147483648, 0, 2147483647, 100);
    assert_eq!(result.err(), Some(PlatformError::DimensionQueryError));
}
