use planar::plane::Point;
use planar::plane::Rectangle;
use planar::plane::Size;

#[test]
fn max_pairs_the_maxima() {
    let r: Rectangle<i64> = Rectangle::from((7, -2, 4, 9));
    assert_eq!(r.max(), Point { x: r.max_x(), y: r.max_y() });
    assert_eq!(r.bottom_right(), r.max());
}

#[test]
fn mixed_corners_pair_extremes() {
    let r: Rectangle<i64> = Rectangle::from((7, -2, 4, 9));
    assert_eq!(r.top_right(), Point { x: r.max_x(), y: r.min_y() });
    assert_eq!(r.bottom_left(), Point { x: r.min_x(), y: r.max_y() });
}

#[test]
fn tuple_round_trip() {
    let t: (i64, i64, i64, i64) = (11, -3, 0, 42);
    let r: Rectangle<i64> = Rectangle::from(t);
    let back: (i64, i64, i64, i64) = r.into();
    assert_eq!(back, t);
}

#[test]
fn tuple_round_trip_from_rectangle() {
    let r = Rectangle {
        origin: Point { x: 5i64, y: 6i64 },
        dimensions: Size { width: 7i64, height: 8i64 },
    };
    let t: (i64, i64, i64, i64) = r.into();
    assert_eq!(Rectangle::from(t), r);
}

#[test]
fn array_round_trip() {
    let a: [i64; 4] = [11, -3, 0, 42];
    let r: Rectangle<i64> = Rectangle::from(a);
    let back: [i64; 4] = r.into();
    assert_eq!(back, a);
}

#[test]
fn array_round_trip_from_rectangle() {
    let r = Rectangle {
        origin: Point { x: 5i64, y: 6i64 },
        dimensions: Size { width: 7i64, height: 8i64 },
    };
    let a: [i64; 4] = r.into();
    assert_eq!(Rectangle::from(a), r);
}

#[test]
fn equality_is_structural() {
    let r1: Rectangle<i64> = Rectangle::from((1, 2, 3, 4));
    let r2 = Rectangle {
        origin: Point { x: 1i64, y: 2i64 },
        dimensions: Size { width: 3i64, height: 4i64 },
    };
    assert_eq!(r1, r2);
    assert_eq!(r2, r1);
    let r3: Rectangle<i64> = Rectangle::from((1, 2, 3, 5));
    assert!(r1 != r3);
}

#[test]
fn clone_preserves_the_value() {
    let r: Rectangle<i64> = Rectangle::from((1, 2, 3, 4));
    let c = r.clone();
    assert_eq!(c, r);
    let copied = r;
    assert_eq!(copied, r);
}

#[test]
fn corners_of_a_plain_rectangle() {
    let r: Rectangle<i64> = Rectangle::from((2, 3, 10, 5));
    assert_eq!(r.min(), Point { x: 2, y: 3 });
    assert_eq!(r.max(), Point { x: 12, y: 8 });
    assert_eq!(r.top_right(), Point { x: 12, y: 3 });
    assert_eq!(r.bottom_left(), Point { x: 2, y: 8 });
    assert_eq!(r.bottom_right(), Point { x: 12, y: 8 });
}

#[test]
fn corners_of_an_empty_rectangle() {
    let r: Rectangle<i64> = Rectangle::from([0, 0, 0, 0]);
    let zero = Point { x: 0i64, y: 0i64 };
    assert_eq!(r.min(), zero);
    assert_eq!(r.max(), zero);
    assert_eq!(r.top_right(), zero);
    assert_eq!(r.bottom_left(), zero);
    assert_eq!(r.bottom_right(), zero);
}

#[test]
fn negative_dimensions_are_accepted() {
    let r: Rectangle<i64> = Rectangle::from((0, 0, -5, -5));
    assert_eq!(r.max(), Point { x: -5, y: -5 });
    assert_eq!(r.min(), Point { x: 0, y: 0 });
}

#[test]
fn min_coordinates_are_the_origin() {
    let r: Rectangle<i64> = Rectangle::from((-7, 9, 100, 200));
    assert_eq!(r.min_x(), -7);
    assert_eq!(r.min_y(), 9);
    assert_eq!(r.min(), Point { x: -7, y: 9 });
}

#[test]
fn generic_over_other_coordinate_types() {
    let r: Rectangle<u8> = Rectangle::from((2u8, 3u8, 10u8, 5u8));
    assert_eq!(r.min(), Point { x: 2u8, y: 3u8 });
    let t: (u8, u8, u8, u8) = r.into();
    assert_eq!(t, (2, 3, 10, 5));
}

#[test]
fn float_coordinates_round_trip() {
    let t: (f64, f64, f64, f64) = (0.5, -1.25, 3.75, 2.0);
    let r: Rectangle<f64> = Rectangle::from(t);
    assert_eq!(r.min_x(), 0.5);
    assert_eq!(r.min_y(), -1.25);
    let back: (f64, f64, f64, f64) = r.into();
    assert_eq!(back, t);
    let a: [f64; 4] = r.into();
    assert_eq!(a, [0.5, -1.25, 3.75, 2.0]);
}

#[test]
fn debug_formatting_shows_both_fields() {
    let r: Rectangle<i64> = Rectangle::from((2, 3, 10, 5));
    let text = format!("{:?}", r);
    assert!(text.contains("origin"));
    assert!(text.contains("dimensions"));
}
