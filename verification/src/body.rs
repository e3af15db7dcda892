//! A point-mass body: kinematic state, a per-tick force accumulator, and the
//! semi-implicit Euler integrator that advances the body one step.

use crate::scalar::{lemma_rmul_one, lemma_rmul_zero, radd, rdiv, rmul, Real, SCALE};
use crate::vector::{v3_add, v3_scale, v3_zero, Vec3, Vector3};
use vstd::prelude::*;

verus! {

/// A body with position, velocity and constant acceleration, plus the
/// per-tick force accumulator.
///
/// `inverse_mass` is held instead of the mass so that an immovable body is
/// the well-behaved value zero rather than an infinity. `damping` is the
/// fraction of velocity kept per integration step (in fixed-point units, so
/// `SCALE` keeps all of it); values slightly below one bleed off the energy
/// that numerical integration adds.
#[derive(Clone, Copy, Debug, PartialEq, Eq, Structural, Default)]
pub struct Body {
    pub position: Vector3,
    pub velocity: Vector3,
    pub acceleration: Vector3,
    pub damping: Real,
    pub inverse_mass: Real,
    pub force_accumulator: Vector3,
}

/// The mathematical value of a `Body`.
pub ghost struct BodyView {
    pub position: Vec3,
    pub velocity: Vec3,
    pub acceleration: Vec3,
    pub damping: int,
    pub inverse_mass: int,
    pub force_accumulator: Vec3,
}

impl View for Body {
    type V = BodyView;

    open spec fn view(&self) -> BodyView {
        BodyView {
            position: self.position@,
            velocity: self.velocity@,
            acceleration: self.acceleration@,
            damping: self.damping as int,
            inverse_mass: self.inverse_mass as int,
            force_accumulator: self.force_accumulator@,
        }
    }
}

/// The body with a force folded into its accumulator and all else unchanged.
pub open spec fn with_added_force(b: BodyView, f: Vec3) -> BodyView {
    BodyView { force_accumulator: v3_add(b.force_accumulator, f), ..b }
}

/// The body after one integration step of the given duration.
///
/// An immovable body (non-positive inverse mass) keeps its whole kinematic
/// state; only the transient force accumulator is cleared. A movable body
/// advances its position by the old velocity, folds the accumulated force
/// into an effective acceleration, advances the velocity by it, and then
/// applies the damping factor once, independent of the step size.
pub open spec fn integrated(b: BodyView, duration: int) -> BodyView {
    if b.inverse_mass <= 0 {
        BodyView { force_accumulator: v3_zero(), ..b }
    } else {
        let moved = v3_add(b.position, v3_scale(b.velocity, duration));
        let effective_acceleration = v3_add(
            b.acceleration,
            v3_scale(b.force_accumulator, b.inverse_mass),
        );
        let accelerated = v3_add(b.velocity, v3_scale(effective_acceleration, duration));
        BodyView {
            position: moved,
            velocity: v3_scale(accelerated, b.damping),
            force_accumulator: v3_zero(),
            ..b
        }
    }
}

impl Body {
    /// The mass of the body, the reciprocal of `inverse_mass`. An immovable
    /// body has no finite mass, so callers rule that case out first.
    pub fn mass(&self) -> (r: Real)
        requires
            self@.inverse_mass > 0,
        ensures
            r as int == rdiv(SCALE as int, self@.inverse_mass),
    {
        crate::scalar::real_div(SCALE, self.inverse_mass)
    }

    /// Whether the body is immovable.
    pub fn has_infinite_mass(&self) -> (r: bool)
        ensures
            r == (self@.inverse_mass == 0),
    {
        self.inverse_mass == 0
    }

    /// Accumulate a force for the next integration step only.
    pub fn add_force(&mut self, force: &Vector3)
        ensures
            final(self)@ == with_added_force(old(self)@, force@),
    {
        self.force_accumulator = self.force_accumulator.add(force);
    }

    /// Advance the body one step of the given duration with semi-implicit
    /// Euler integration, then clear the force accumulator.
    ///
    /// A non-positive duration makes no sense for a movable body and is ruled
    /// out here; an immovable body ignores the duration entirely.
    pub fn integrate(&mut self, duration: Real)
        requires
            old(self)@.inverse_mass <= 0 || duration > 0,
        ensures
            final(self)@ == integrated(old(self)@, duration as int),
    {
        if self.inverse_mass <= 0 {
            self.force_accumulator = Vector3::zero();
            return;
        }

        self.position = self.position.add(&self.velocity.scale(duration));

        let effective_acceleration = self.acceleration.add(
            &self.force_accumulator.scale(self.inverse_mass),
        );

        let accelerated = self.velocity.add(&effective_acceleration.scale(duration));
        self.velocity = accelerated.scale(self.damping);

        self.force_accumulator = Vector3::zero();
    }
}

/// An immovable body never moves: integration leaves its position, velocity
/// and acceleration unchanged, whatever the duration and accumulated force.
pub proof fn lemma_integrate_immovable(b: BodyView, duration: int)
    requires
        b.inverse_mass == 0,
    ensures
        integrated(b, duration).position == b.position,
        integrated(b, duration).velocity == b.velocity,
        integrated(b, duration).acceleration == b.acceleration,
{
}

/// Integration always clears the force accumulator, for every body.
pub proof fn lemma_integrate_clears_forces(b: BodyView, duration: int)
    ensures
        integrated(b, duration).force_accumulator == v3_zero(),
{
}

/// A movable body with no acceleration, no accumulated force and unit
/// damping drifts exactly: the position advances by velocity times duration
/// and the velocity is unchanged.
pub proof fn lemma_integrate_no_force_no_drift(b: BodyView, duration: int)
    requires
        b.inverse_mass > 0,
        b.acceleration == v3_zero(),
        b.force_accumulator == v3_zero(),
        b.damping == SCALE as int,
        i64::MIN <= b.velocity.x <= i64::MAX,
        i64::MIN <= b.velocity.y <= i64::MAX,
        i64::MIN <= b.velocity.z <= i64::MAX,
    ensures
        integrated(b, duration).velocity == b.velocity,
        integrated(b, duration).position == v3_add(b.position, v3_scale(b.velocity, duration)),
{
    lemma_rmul_zero(b.inverse_mass);
    lemma_rmul_zero(duration);
    let effective_acceleration = v3_add(b.acceleration, v3_scale(b.force_accumulator, b.inverse_mass));
    assert(effective_acceleration == v3_zero());
    let accelerated = v3_add(b.velocity, v3_scale(effective_acceleration, duration));
    assert(accelerated == b.velocity);
    lemma_rmul_one(b.velocity.x);
    lemma_rmul_one(b.velocity.y);
    lemma_rmul_one(b.velocity.z);
    assert(v3_scale(accelerated, b.damping) == b.velocity);
}

} // verus!
