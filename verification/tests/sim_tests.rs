use tuple_algebra::scalar::Scalar;
use tuple_algebra::sim::{tick, Environment, Projectile};
use tuple_algebra::tuple::{point, vector};

fn sc(num: i64, den: i64) -> Scalar {
    Scalar::new(num, den)
}

fn si(num: i64) -> Scalar {
    Scalar::from_int(num)
}

#[test]
fn one_tick() {
    // Gravity pulls down a tenth per tick, wind pushes a hundredth forward;
    // the projectile starts at height one with a unit-length velocity (a
    // 3-4-5 direction, so the length is exact).
    let env = Environment {
        gravity: vector(si(0), sc(-1, 10), si(0)),
        wind: vector(sc(1, 100), si(0), si(0)),
    };
    let start = Projectile {
        position: point(si(0), si(1), si(0)),
        velocity: vector(sc(3, 5), sc(4, 5), si(0)),
    };
    assert_eq!(start.velocity.magnitude_squared(), si(1));
    let after = tick(env, &start);
    assert_eq!(after.position, point(sc(3, 5), sc(9, 5), si(0)));
    assert_eq!(after.velocity, vector(sc(61, 100), sc(7, 10), si(0)));
    assert!(after.position.is_point());
    assert!(after.velocity.is_vector());
}

#[test]
fn repeated_ticks() {
    // Repeated ticks only ever add vectors, so the position stays a point
    // and the velocity a vector for the whole flight.
    let env = Environment {
        gravity: vector(si(0), si(-1), si(0)),
        wind: vector(si(1), si(0), si(0)),
    };
    let mut proj = Projectile {
        position: point(si(0), si(1), si(0)),
        velocity: vector(si(3), si(4), si(0)),
    };
    let mut steps: usize = 0;
    while steps < 17 {
        proj = tick(env, &proj);
        assert!(proj.position.is_point());
        assert!(proj.velocity.is_vector());
        steps += 1;
    }
    assert_eq!(proj.velocity, vector(si(20), si(-13), si(0)));
    assert_eq!(proj.position, point(si(187), si(-67), si(0)));
}
