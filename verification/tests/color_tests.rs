use graphics::color::{color_rgb, rgb, Rgb, RgbCast};
use graphics::fixed::{from_ratio, ONE};
use graphics::geometry::{Point3, Vector3};

#[test]
fn test_rgb_conversion_truncates() {
    // 0.999 of full intensity is channel value 254, not 255.
    let c = from_ratio(999, 1000).unwrap();
    let color: Rgb = rgb(Vector3::new(c, c, c));
    assert_eq!(color, Rgb::from_channels(254, 254, 254));
    assert_eq!(color_rgb(Vector3::new(c, 0, ONE)), Rgb::from_channels(254, 0, 255));
}

#[test]
fn test_rgb_conversion_of_the_mock_colour() {
    // (0.3, 0.3, 0.4) becomes (76, 76, 101): 76.5 and 102 less rounding.
    let color = Vector3::new(from_ratio(3, 10).unwrap(), from_ratio(3, 10).unwrap(), from_ratio(4, 10).unwrap());
    assert_eq!(color_rgb(color), Rgb::from_channels(76, 76, 101));
}

#[test]
fn test_rgb_conversion_saturates_outside_the_unit_interval() {
    assert_eq!(color_rgb(Vector3::new(-1, ONE + 1, i32::MAX)), Rgb::from_channels(0, 255, 255));
    assert_eq!(color_rgb(Vector3::new(i32::MIN, 0, ONE)), Rgb::from_channels(0, 0, 255));
    assert_eq!(color_rgb(Vector3::new(ONE - 1, 1, 257)), Rgb::from_channels(254, 0, 0));
    assert_eq!(color_rgb(Vector3::new(258, 514, 32768)), Rgb::from_channels(1, 1, 127));
}

#[test]
fn test_rgb_cast_agrees_for_vectors_points_and_references() {
    let v = Vector3::new(ONE / 2, ONE / 4, ONE);
    let p = Point3::new(ONE / 2, ONE / 4, ONE);
    let expected = Rgb::from_channels(127, 63, 255);
    assert_eq!(<Rgb as RgbCast<Vector3>>::rgb_cast(v), expected);
    assert_eq!(<Rgb as RgbCast<&Vector3>>::rgb_cast(&v), expected);
    assert_eq!(<Rgb as RgbCast<Point3>>::rgb_cast(p), expected);
    assert_eq!(<Rgb as RgbCast<&Point3>>::rgb_cast(&p), expected);
    let from_point: Rgb = rgb(p);
    assert_eq!(from_point, expected);
}

#[test]
fn test_rgb_channels_and_conversions() {
    let mut c = Rgb::from_channels(1, 2, 3);
    assert_eq!((c.r(), c.g(), c.b()), (1, 2, 3));
    assert_eq!(Rgb::channel_count(), 3);
    assert_eq!(c.channels(), [1, 2, 3]);
    assert_eq!(c.channel(0), 1);
    assert_eq!(c.channel(2), 3);
    c.set_channel(1, 200);
    assert_eq!(c, Rgb::from_channels(1, 200, 3));
    assert_eq!(Rgb::from([9, 8, 7]), Rgb::from_channels(9, 8, 7));
    assert_eq!(Rgb::from((9, 8, 7)), Rgb::from_channels(9, 8, 7));
    assert_eq!(Rgb::default(), Rgb::from_channels(0, 0, 0));
}
