use tuple_algebra::color::Color;
use tuple_algebra::scalar::Scalar;

fn sc(num: i64, den: i64) -> Scalar {
    Scalar::new(num, den)
}

fn col(red: (i64, i64), green: (i64, i64), blue: (i64, i64)) -> Color {
    Color { red: sc(red.0, red.1), green: sc(green.0, green.1), blue: sc(blue.0, blue.1) }
}

#[test]
fn color_test() {
    let c = col((-1, 2), (2, 5), (17, 10));
    assert_eq!(c.red, sc(-1, 2));
    assert_eq!(c.green, sc(2, 5));
    assert_eq!(c.blue, sc(17, 10));
}

#[test]
fn add_colors() {
    let c1 = col((9, 10), (6, 10), (75, 100));
    let c2 = col((7, 10), (1, 10), (25, 100));
    assert_eq!(col((16, 10), (7, 10), (1, 1)), c1.add(c2));
}

#[test]
fn sub_colors() {
    let c1 = col((9, 10), (6, 10), (75, 100));
    let c2 = col((7, 10), (1, 10), (25, 100));
    assert_eq!(col((2, 10), (5, 10), (5, 10)), c1.sub(c2));
}

#[test]
fn mul_colors() {
    let c1 = col((9, 10), (6, 10), (75, 100));
    let c2 = col((7, 10), (1, 10), (25, 100));
    assert_eq!(col((63, 100), (6, 100), (1875, 10000)), c1.mul(c2));
}

#[test]
fn scale_color() {
    let c = col((2, 10), (3, 10), (4, 10));
    assert_eq!(col((4, 10), (6, 10), (8, 10)), c.scale(Scalar::from_int(2)));
}
