//! The projectile step: a thin consumer of tuple addition.
//!
//! An environment holds a gravity vector and a wind vector; a projectile
//! holds a position point and a velocity vector. One tick moves the position
//! by the velocity and bends the velocity by gravity and wind. The step is a
//! pure function; a driver applies it as often as it likes.

use vstd::prelude::*;

use crate::tuple::{tv_add, tv_add_fits, tv_wf, Tuple};

verus! {

/// Constant surroundings of a flight: gravity and wind, both vectors.
#[derive(Clone, Copy, Debug)]
pub struct Environment {
    pub gravity: Tuple,
    pub wind: Tuple,
}

/// A flying thing: where it is (a point) and where it goes (a vector).
#[derive(Clone, Copy, Debug)]
pub struct Projectile {
    pub position: Tuple,
    pub velocity: Tuple,
}

/// One step of the flight: the position moves by the velocity, and the
/// velocity picks up gravity and then wind.
pub fn tick(env: Environment, proj: &Projectile) -> (r: Projectile)
    requires
        tv_wf(proj.position@),
        tv_wf(proj.velocity@),
        tv_wf(env.gravity@),
        tv_wf(env.wind@),
        tv_add_fits(proj.position@, proj.velocity@),
        tv_add_fits(proj.velocity@, env.gravity@),
        tv_add_fits(tv_add(proj.velocity@, env.gravity@), env.wind@),
    ensures
        tv_wf(r.position@),
        tv_wf(r.velocity@),
        r.position@ == tv_add(proj.position@, proj.velocity@),
        r.velocity@ == tv_add(tv_add(proj.velocity@, env.gravity@), env.wind@),
{
    let new_pos = proj.position.add(proj.velocity);
    let new_vel = proj.velocity.add(env.gravity).add(env.wind);
    Projectile { position: new_pos, velocity: new_vel }
}

} // verus!
