use tuple_algebra::scalar::Scalar;
use tuple_algebra::tuple::{cross_product, point, vector, Tuple};

fn sc(num: i64, den: i64) -> Scalar {
    Scalar::new(num, den)
}

fn si(num: i64) -> Scalar {
    Scalar::from_int(num)
}

#[test]
fn tuple_point() {
    let a = Tuple { x: sc(43, 10), y: sc(-42, 10), z: sc(31, 10), w: si(1) };
    assert_eq!(sc(43, 10), a.x);
    assert_eq!(sc(-42, 10), a.y);
    assert_eq!(sc(31, 10), a.z);
    assert_eq!(si(1), a.w);
    assert!(a.is_point());
    assert!(!a.is_vector());
}

#[test]
fn tuple_vector() {
    let a = Tuple { x: sc(43, 10), y: sc(-42, 10), z: sc(31, 10), w: si(0) };
    assert_eq!(sc(43, 10), a.x);
    assert_eq!(sc(-42, 10), a.y);
    assert_eq!(sc(31, 10), a.z);
    assert_eq!(si(0), a.w);
    assert!(!a.is_point());
    assert!(a.is_vector());
}

#[test]
fn point_maker() {
    let p = point(si(1), si(2), si(3));
    assert_eq!(p, Tuple { x: si(1), y: si(2), z: si(3), w: si(1) });
}

#[test]
fn vector_maker() {
    let v = vector(si(1), si(2), si(3));
    assert_eq!(v, Tuple { x: si(1), y: si(2), z: si(3), w: si(0) });
}

#[test]
fn tuple_addition() {
    let a1 = Tuple { x: si(3), y: si(-2), z: si(5), w: si(1) };
    let a2 = Tuple { x: si(-2), y: si(3), z: si(1), w: si(0) };
    assert_eq!(a1.add(a2), Tuple { x: si(1), y: si(1), z: si(6), w: si(1) });
}

#[test]
fn point_subtraction() {
    let p1 = point(si(3), si(2), si(1));
    let p2 = point(si(5), si(6), si(7));
    assert_eq!(p1.sub(p2), vector(si(-2), si(-4), si(-6)));
}

#[test]
fn sub_vec_from_point() {
    let p = point(si(3), si(2), si(1));
    let v = vector(si(5), si(6), si(7));
    assert_eq!(p.sub(v), point(si(-2), si(-4), si(-6)));
}

#[test]
fn sub_vecs() {
    let v1 = vector(si(3), si(2), si(1));
    let v2 = vector(si(5), si(6), si(7));
    assert_eq!(v1.sub(v2), vector(si(-2), si(-4), si(-6)));
}

#[test]
fn sub_vec_from_zero() {
    let zero = vector(si(0), si(0), si(0));
    let v = vector(si(1), si(-2), si(3));
    assert_eq!(zero.sub(v), vector(si(-1), si(2), si(-3)));
}

#[test]
fn negating() {
    let a = Tuple { x: si(1), y: si(-2), z: si(3), w: si(-4) };
    assert_eq!(a.neg(), Tuple { x: si(-1), y: si(2), z: si(-3), w: si(4) });
}

#[test]
fn mul_tuple_by_scalar() {
    let a = Tuple { x: si(1), y: si(-2), z: si(3), w: si(-4) };
    assert_eq!(a.mul(sc(7, 2)), Tuple { x: sc(7, 2), y: si(-7), z: sc(21, 2), w: si(-14) });
}

#[test]
fn mul_tuple_by_fraction() {
    let a = Tuple { x: si(1), y: si(-2), z: si(3), w: si(-4) };
    assert_eq!(a.mul(sc(1, 2)), Tuple { x: sc(1, 2), y: si(-1), z: sc(3, 2), w: si(-2) });
}

#[test]
fn div_tuple_by_scalar() {
    let a = Tuple { x: si(1), y: si(-2), z: si(3), w: si(-4) };
    assert_eq!(a.div(si(2)), Tuple { x: sc(1, 2), y: si(-1), z: sc(3, 2), w: si(-2) });
}

#[test]
fn dot_product() {
    let a = vector(si(1), si(2), si(3));
    let b = vector(si(2), si(3), si(4));
    assert_eq!(a.dot(&b), si(20));
}

#[test]
fn cross_products() {
    let a = vector(si(1), si(2), si(3));
    let b = vector(si(2), si(3), si(4));
    assert_eq!(a.cross(&b), vector(si(-1), si(2), si(-1)));
    assert_eq!(b.cross(&a), vector(si(1), si(-2), si(1)));
    assert_eq!(cross_product(&a, &b), vector(si(-1), si(2), si(-1)));
}

#[test]
fn cross_of_negated_operands() {
    let a = vector(si(1), si(2), si(3));
    let b = vector(si(2), si(3), si(4));
    assert_eq!(b.cross(&a), a.cross(&b).neg());
}

#[test]
fn magnitude_squared_units() {
    assert_eq!(vector(si(1), si(0), si(0)).magnitude_squared(), si(1));
    assert_eq!(vector(si(0), si(1), si(0)).magnitude_squared(), si(1));
    assert_eq!(vector(si(0), si(0), si(1)).magnitude_squared(), si(1));
}

#[test]
fn magnitude_squared_pos() {
    assert_eq!(vector(si(1), si(2), si(3)).magnitude_squared(), si(14));
}

#[test]
fn magnitude_squared_neg() {
    assert_eq!(vector(si(-1), si(-2), si(-3)).magnitude_squared(), si(14));
}

#[test]
fn magnitude_squared_of_fractions() {
    // A 3-4-5 direction scaled to unit length has squared magnitude one.
    let v = vector(sc(3, 5), sc(4, 5), si(0));
    assert_eq!(v.magnitude_squared(), si(1));
}

#[test]
fn unit_scaling() {
    // Dividing by the magnitude normalizes: vector(4,0,0) has magnitude
    // exactly 4 and scales down to the unit x vector.
    let v = vector(si(4), si(0), si(0));
    assert_eq!(v.magnitude_squared(), si(16));
    let n = v.div(si(4));
    assert_eq!(n, vector(si(1), si(0), si(0)));
    assert_eq!(n.magnitude_squared(), si(1));
}

#[test]
fn sub_then_add_returns_original() {
    let a = point(sc(43, 10), sc(-42, 10), sc(31, 10));
    let b = vector(sc(1, 3), sc(-5, 7), si(2));
    assert_eq!(a.sub(b).add(b), a);
}

#[test]
fn scalar_value_equality() {
    assert_eq!(sc(1, 2), sc(2, 4));
    assert_ne!(sc(1, 2), sc(1, 3));
    assert_ne!(point(si(1), si(2), si(3)), vector(si(1), si(2), si(3)));
}
