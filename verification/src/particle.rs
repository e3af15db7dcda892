//! A bare kinematic particle: position, velocity, acceleration and damping,
//! without the force machinery of a full `Body`.

use crate::scalar::Real;
use crate::vector::Vector3;
use vstd::prelude::*;

verus! {

/// A point with kinematic state only. `damping` is the fraction of velocity
/// kept per step, as for `Body`.
#[derive(Clone, Copy, Debug, PartialEq, Eq, Structural, Default)]
pub struct Particle {
    pub position: Vector3,
    pub velocity: Vector3,
    pub acceleration: Vector3,
    pub damping: Real,
}

} // verus!
