//! Force generators: small immutable values that read a body's current state
//! and fold a force into its accumulator, once per tick. A generator never
//! touches any other field, and a stale handle (its target's or a partner
//! body's) makes the application a silent no-op for that tick.

use crate::arena::{body_get, body_map, body_update, BodySet, Handle};
use crate::body::{with_added_force, BodyView};
use crate::scalar::{
    lemma_rmul_one, radd, rdiv, real_add, real_div, real_mul, real_neg, real_sub, rmul, rneg, rsub,
    Real, SCALE,
};
use crate::vector::{v3_add, v3_mag, v3_normalize, v3_scale, v3_sub, v3_zero, Vec3, Vector3};
use vstd::arithmetic::div_mod::lemma_div_is_ordered;
use vstd::prelude::*;

verus! {

/// A source of forces. Applying a generator to a body folds a force into
/// that body's accumulator; `apply_spec` states the whole effect on the
/// contents of the body arena.
pub trait ForceGenerator {
    /// The contents of the body arena after this generator applies to the
    /// body under `body_handle`.
    spec fn apply_spec(&self, duration: int, body_handle: Handle, m: Map<Handle, BodyView>) -> Map<
        Handle,
        BodyView,
    >;

    /// Apply this generator's force to the body under `body_handle`.
    fn apply(&self, duration: Real, body_handle: Handle, bodies: &mut BodySet)
        ensures
            body_map(*final(bodies)) == self.apply_spec(
                duration as int,
                body_handle,
                body_map(*old(bodies)),
            ),
    ;
}

/// Binds one force generator to the bodies it affects each tick.
pub struct ForceRegistration {
    pub generator_handle: Handle,
    pub bodies: Vec<Handle>,
}

impl ForceRegistration {
    /// Bind a generator to an ordered list of target bodies.
    pub fn new(generator_handle: Handle, bodies: Vec<Handle>) -> (r: ForceRegistration)
        ensures
            r.generator_handle == generator_handle,
            r.bodies@ == bodies@,
    {
        ForceRegistration { generator_handle, bodies }
    }
}

/// Constant gravitational pull: force is the gravity vector times the mass.
#[derive(Clone, Copy, Debug)]
pub struct Gravity {
    pub force: Vector3,
}

impl Gravity {
    /// A gravity generator with the given acceleration vector.
    pub fn new(force: Vector3) -> (r: Gravity)
        ensures
            r.force == force,
    {
        Gravity { force }
    }

    /// Standard earth gravity, pointing down the y axis.
    pub fn earth_gravity() -> (r: Vector3)
        ensures
            r@ == (Vec3 { x: 0, y: -9800, z: 0 }),
    {
        proof {
            crate::scalar::lemma_rmul_zero(-9800);
            lemma_rmul_one(-9800);
        }
        Vector3::y().scale(-9800)
    }
}

impl Default for Gravity {
    /// Gravity defaults to the standard earth pull.
    fn default() -> (r: Gravity)
        ensures
            r.force@ == (Vec3 { x: 0, y: -9800, z: 0 }),
    {
        Gravity::new(Gravity::earth_gravity())
    }
}

impl ForceGenerator for Gravity {
    /// Gravity adds `force * mass`; an absent or immovable body is left
    /// untouched (gravity on an immovable body is physically vacuous, and
    /// its mass has no finite value).
    open spec fn apply_spec(&self, duration: int, body_handle: Handle, m: Map<Handle, BodyView>)
        -> Map<Handle, BodyView> {
        if !m.dom().contains(body_handle) || m[body_handle].inverse_mass <= 0 {
            m
        } else {
            m.insert(
                body_handle,
                with_added_force(
                    m[body_handle],
                    v3_scale(self.force@, rdiv(SCALE as int, m[body_handle].inverse_mass)),
                ),
            )
        }
    }

    fn apply(&self, duration: Real, body_handle: Handle, bodies: &mut BodySet) {
        let body = match body_get(bodies, body_handle) {
            Some(b) => b,
            None => {
                return ;
            },
        };
        if body.inverse_mass <= 0 {
            return ;
        }
        let force = self.force.scale(body.mass());
        let mut updated = body;
        updated.add_force(&force);
        body_update(bodies, body_handle, updated);
    }
}

/// Quadratic air resistance: the drag coefficient grows with the speed and
/// its square, and the force opposes the motion.
#[derive(Clone, Copy, Debug, Default)]
pub struct Drag {
    pub k1: Real,
    pub k2: Real,
}

impl ForceGenerator for Drag {
    /// Drag adds `-(k1 * speed + k2 * speed^2)` along the direction of
    /// motion; a body at rest feels nothing (its velocity has no direction).
    open spec fn apply_spec(&self, duration: int, body_handle: Handle, m: Map<Handle, BodyView>)
        -> Map<Handle, BodyView> {
        if !m.dom().contains(body_handle) {
            m
        } else {
            let velocity = m[body_handle].velocity;
            if v3_mag(velocity) <= 0 {
                m
            } else {
                let speed = v3_mag(velocity);
                let coefficient = radd(rmul(self.k1 as int, speed), rmul(self.k2 as int, rmul(speed, speed)));
                m.insert(
                    body_handle,
                    with_added_force(
                        m[body_handle],
                        v3_scale(v3_normalize(velocity), rneg(coefficient)),
                    ),
                )
            }
        }
    }

    fn apply(&self, duration: Real, body_handle: Handle, bodies: &mut BodySet) {
        let body = match body_get(bodies, body_handle) {
            Some(b) => b,
            None => {
                return ;
            },
        };
        let speed = body.velocity.magnitude();
        if speed == 0 {
            return ;
        }
        let coefficient = real_add(
            real_mul(self.k1, speed),
            real_mul(self.k2, real_mul(speed, speed)),
        );
        let force = body.velocity.normalize().scale(real_neg(coefficient));
        let mut updated = body;
        updated.add_force(&force);
        body_update(bodies, body_handle, updated);
    }
}

/// The scalar pull of a Hookean spring: the deviation of the displacement's
/// length from the rest length, times the spring constant.
pub open spec fn spring_force_magnitude(displacement: Vec3, spring_constant: int, rest_length: int)
    -> int {
    let diff = rsub(v3_mag(displacement), rest_length);
    let amount = if diff < 0 {
        rneg(diff)
    } else {
        diff
    };
    rmul(amount, spring_constant)
}

/// The spring force on the body at the head of `displacement`: the restoring
/// magnitude, pointing back along the displacement.
pub open spec fn spring_force(displacement: Vec3, spring_constant: int, rest_length: int) -> Vec3
    recommends
        v3_mag(displacement) > 0,
{
    v3_scale(
        v3_normalize(displacement),
        rneg(spring_force_magnitude(displacement, spring_constant, rest_length)),
    )
}

/// The scalar pull of a bungee cord: zero while slack (or while the bodies
/// coincide), and the stretch beyond the rest length times the spring
/// constant once taut.
pub open spec fn bungee_force_magnitude(displacement: Vec3, spring_constant: int, rest_length: int)
    -> int {
    if v3_mag(displacement) <= 0 || v3_mag(displacement) <= rest_length {
        0
    } else {
        rmul(rsub(v3_mag(displacement), rest_length), spring_constant)
    }
}

/// The bungee force on the body at the head of `displacement`: zero while
/// slack, and the restoring magnitude pointing back along the displacement
/// once taut.
pub open spec fn bungee_force(displacement: Vec3, spring_constant: int, rest_length: int) -> Vec3 {
    if v3_mag(displacement) <= 0 || v3_mag(displacement) <= rest_length {
        v3_zero()
    } else {
        v3_scale(
            v3_normalize(displacement),
            rneg(bungee_force_magnitude(displacement, spring_constant, rest_length)),
        )
    }
}

/// A Hookean spring between two bodies: pulls the target toward its rest
/// length from the other body, on both compression and extension.
#[derive(Clone, Copy, Debug)]
pub struct Spring {
    pub end_body_handle: Handle,
    pub spring_constant: Real,
    pub rest_length: Real,
}

impl ForceGenerator for Spring {
    /// The spring adds its restoring force toward the other body's position;
    /// if either handle is stale, or the two bodies coincide (no direction),
    /// nothing happens.
    open spec fn apply_spec(&self, duration: int, body_handle: Handle, m: Map<Handle, BodyView>)
        -> Map<Handle, BodyView> {
        if !m.dom().contains(self.end_body_handle) || !m.dom().contains(body_handle) {
            m
        } else {
            let displacement = v3_sub(m[body_handle].position, m[self.end_body_handle].position);
            if v3_mag(displacement) <= 0 {
                m
            } else {
                m.insert(
                    body_handle,
                    with_added_force(
                        m[body_handle],
                        spring_force(
                            displacement,
                            self.spring_constant as int,
                            self.rest_length as int,
                        ),
                    ),
                )
            }
        }
    }

    fn apply(&self, duration: Real, body_handle: Handle, bodies: &mut BodySet) {
        let end_body = match body_get(bodies, self.end_body_handle) {
            Some(b) => b,
            None => {
                return ;
            },
        };
        let body = match body_get(bodies, body_handle) {
            Some(b) => b,
            None => {
                return ;
            },
        };
        let displacement = body.position.sub(&end_body.position);
        let length = displacement.magnitude();
        if length == 0 {
            return ;
        }
        let diff = real_sub(length, self.rest_length);
        let amount = if diff < 0 {
            real_neg(diff)
        } else {
            diff
        };
        let magnitude = real_mul(amount, self.spring_constant);
        let force = displacement.normalize().scale(real_neg(magnitude));
        let mut updated = body;
        updated.add_force(&force);
        body_update(bodies, body_handle, updated);
    }
}

/// A Hookean spring between a body and a fixed anchor point.
#[derive(Clone, Copy, Debug)]
pub struct AnchoredSpring {
    pub anchor: Vector3,
    pub spring_constant: Real,
    pub rest_length: Real,
}

impl ForceGenerator for AnchoredSpring {
    /// The spring adds its restoring force toward the anchor; a stale handle
    /// or a body sitting on the anchor (no direction) changes nothing.
    open spec fn apply_spec(&self, duration: int, body_handle: Handle, m: Map<Handle, BodyView>)
        -> Map<Handle, BodyView> {
        if !m.dom().contains(body_handle) {
            m
        } else {
            let displacement = v3_sub(m[body_handle].position, self.anchor@);
            if v3_mag(displacement) <= 0 {
                m
            } else {
                m.insert(
                    body_handle,
                    with_added_force(
                        m[body_handle],
                        spring_force(
                            displacement,
                            self.spring_constant as int,
                            self.rest_length as int,
                        ),
                    ),
                )
            }
        }
    }

    fn apply(&self, duration: Real, body_handle: Handle, bodies: &mut BodySet) {
        let body = match body_get(bodies, body_handle) {
            Some(b) => b,
            None => {
                return ;
            },
        };
        let displacement = body.position.sub(&self.anchor);
        let length = displacement.magnitude();
        if length == 0 {
            return ;
        }
        let diff = real_sub(length, self.rest_length);
        let amount = if diff < 0 {
            real_neg(diff)
        } else {
            diff
        };
        let magnitude = real_mul(amount, self.spring_constant);
        let force = displacement.normalize().scale(real_neg(magnitude));
        let mut updated = body;
        updated.add_force(&force);
        body_update(bodies, body_handle, updated);
    }
}

/// An elastic cord between two bodies: like a spring, but it only pulls when
/// stretched beyond its rest length, never pushes.
#[derive(Clone, Copy, Debug)]
pub struct Bungee {
    pub end_body_handle: Handle,
    pub spring_constant: Real,
    pub rest_length: Real,
}

impl ForceGenerator for Bungee {
    /// The cord adds its restoring pull only once taut; while slack or
    /// compressed (or on a stale handle) nothing happens.
    open spec fn apply_spec(&self, duration: int, body_handle: Handle, m: Map<Handle, BodyView>)
        -> Map<Handle, BodyView> {
        if !m.dom().contains(self.end_body_handle) || !m.dom().contains(body_handle) {
            m
        } else {
            let displacement = v3_sub(m[body_handle].position, m[self.end_body_handle].position);
            if v3_mag(displacement) <= 0 || v3_mag(displacement) <= self.rest_length {
                m
            } else {
                m.insert(
                    body_handle,
                    with_added_force(
                        m[body_handle],
                        bungee_force(
                            displacement,
                            self.spring_constant as int,
                            self.rest_length as int,
                        ),
                    ),
                )
            }
        }
    }

    fn apply(&self, duration: Real, body_handle: Handle, bodies: &mut BodySet) {
        let end_body = match body_get(bodies, self.end_body_handle) {
            Some(b) => b,
            None => {
                return ;
            },
        };
        let body = match body_get(bodies, body_handle) {
            Some(b) => b,
            None => {
                return ;
            },
        };
        let displacement = body.position.sub(&end_body.position);
        let length = displacement.magnitude();
        if length == 0 || length <= self.rest_length {
            return ;
        }
        let magnitude = real_mul(real_sub(length, self.rest_length), self.spring_constant);
        let force = displacement.normalize().scale(real_neg(magnitude));
        let mut updated = body;
        updated.add_force(&force);
        body_update(bodies, body_handle, updated);
    }
}

/// An elastic cord between a body and a fixed anchor point.
#[derive(Clone, Copy, Debug)]
pub struct AnchoredBungee {
    pub anchor: Vector3,
    pub spring_constant: Real,
    pub rest_length: Real,
}

impl ForceGenerator for AnchoredBungee {
    /// The cord adds its restoring pull toward the anchor only once taut.
    open spec fn apply_spec(&self, duration: int, body_handle: Handle, m: Map<Handle, BodyView>)
        -> Map<Handle, BodyView> {
        if !m.dom().contains(body_handle) {
            m
        } else {
            let displacement = v3_sub(m[body_handle].position, self.anchor@);
            if v3_mag(displacement) <= 0 || v3_mag(displacement) <= self.rest_length {
                m
            } else {
                m.insert(
                    body_handle,
                    with_added_force(
                        m[body_handle],
                        bungee_force(
                            displacement,
                            self.spring_constant as int,
                            self.rest_length as int,
                        ),
                    ),
                )
            }
        }
    }

    fn apply(&self, duration: Real, body_handle: Handle, bodies: &mut BodySet) {
        let body = match body_get(bodies, body_handle) {
            Some(b) => b,
            None => {
                return ;
            },
        };
        let displacement = body.position.sub(&self.anchor);
        let length = displacement.magnitude();
        if length == 0 || length <= self.rest_length {
            return ;
        }
        let magnitude = real_mul(real_sub(length, self.rest_length), self.spring_constant);
        let force = displacement.normalize().scale(real_neg(magnitude));
        let mut updated = body;
        updated.add_force(&force);
        body_update(bodies, body_handle, updated);
    }
}

/// Depth-dependent upward push from a liquid: nothing above the surface
/// band, the full displaced weight below it, and a linear blend in between.
#[derive(Clone, Copy, Debug, Default)]
pub struct Buoyancy {
    pub max_depth: Real,
    pub volume: Real,
    pub water_height: Real,
    pub liquid_density: Real,
}

impl ForceGenerator for Buoyancy {
    /// Above `water_height + max_depth` the body is dry and feels nothing;
    /// below `water_height - max_depth` it is fully submerged and feels
    /// `liquid_density * volume` upward; in between the force scales with the
    /// submerged fraction of the band.
    open spec fn apply_spec(&self, duration: int, body_handle: Handle, m: Map<Handle, BodyView>)
        -> Map<Handle, BodyView> {
        if !m.dom().contains(body_handle) {
            m
        } else {
            let depth = m[body_handle].position.y;
            let upper = radd(self.water_height as int, self.max_depth as int);
            if depth >= upper {
                m
            } else {
                let lower = rsub(self.water_height as int, self.max_depth as int);
                let lift = if depth <= lower {
                    rmul(self.liquid_density as int, self.volume as int)
                } else {
                    rmul(
                        rmul(self.liquid_density as int, self.volume as int),
                        rdiv(
                            rsub(upper, depth),
                            radd(self.max_depth as int, self.max_depth as int),
                        ),
                    )
                };
                m.insert(
                    body_handle,
                    with_added_force(m[body_handle], Vec3 { x: 0, y: lift, z: 0 }),
                )
            }
        }
    }

    fn apply(&self, duration: Real, body_handle: Handle, bodies: &mut BodySet) {
        let body = match body_get(bodies, body_handle) {
            Some(b) => b,
            None => {
                return ;
            },
        };
        let depth = body.position.y;
        let upper = real_add(self.water_height, self.max_depth);
        if depth >= upper {
            return ;
        }
        let lower = real_sub(self.water_height, self.max_depth);
        let lift = if depth <= lower {
            real_mul(self.liquid_density, self.volume)
        } else {
            let band = real_add(self.max_depth, self.max_depth);
            assert(band > 0);
            real_mul(
                real_mul(self.liquid_density, self.volume),
                real_div(real_sub(upper, depth), band),
            )
        };
        let force = Vector3::new(0, lift, 0);
        let mut updated = body;
        updated.add_force(&force);
        body_update(bodies, body_handle, updated);
    }
}

/// One of the force generator variants, as stored in the world's generator
/// arena; applying it applies the variant it holds.
#[derive(Clone, Copy, Debug)]
pub enum ForceGeneratorKind {
    Gravity(Gravity),
    Drag(Drag),
    Spring(Spring),
    AnchoredSpring(AnchoredSpring),
    Bungee(Bungee),
    AnchoredBungee(AnchoredBungee),
    Buoyancy(Buoyancy),
}

impl ForceGenerator for ForceGeneratorKind {
    /// The effect of whichever variant this is.
    open spec fn apply_spec(&self, duration: int, body_handle: Handle, m: Map<Handle, BodyView>)
        -> Map<Handle, BodyView> {
        match self {
            ForceGeneratorKind::Gravity(g) => g.apply_spec(duration, body_handle, m),
            ForceGeneratorKind::Drag(g) => g.apply_spec(duration, body_handle, m),
            ForceGeneratorKind::Spring(g) => g.apply_spec(duration, body_handle, m),
            ForceGeneratorKind::AnchoredSpring(g) => g.apply_spec(duration, body_handle, m),
            ForceGeneratorKind::Bungee(g) => g.apply_spec(duration, body_handle, m),
            ForceGeneratorKind::AnchoredBungee(g) => g.apply_spec(duration, body_handle, m),
            ForceGeneratorKind::Buoyancy(g) => g.apply_spec(duration, body_handle, m),
        }
    }

    fn apply(&self, duration: Real, body_handle: Handle, bodies: &mut BodySet) {
        match self {
            ForceGeneratorKind::Gravity(g) => g.apply(duration, body_handle, bodies),
            ForceGeneratorKind::Drag(g) => g.apply(duration, body_handle, bodies),
            ForceGeneratorKind::Spring(g) => g.apply(duration, body_handle, bodies),
            ForceGeneratorKind::AnchoredSpring(g) => g.apply(duration, body_handle, bodies),
            ForceGeneratorKind::Bungee(g) => g.apply(duration, body_handle, bodies),
            ForceGeneratorKind::AnchoredBungee(g) => g.apply(duration, body_handle, bodies),
            ForceGeneratorKind::Buoyancy(g) => g.apply(duration, body_handle, bodies),
        }
    }
}

/// Gravity applied to an immovable body changes nothing at all: neither its
/// force accumulator nor any other part of the world.
pub proof fn lemma_gravity_immovable_noop(
    g: Gravity,
    duration: int,
    body_handle: Handle,
    m: Map<Handle, BodyView>,
)
    requires
        m.dom().contains(body_handle),
        m[body_handle].inverse_mass == 0,
    ensures
        g.apply_spec(duration, body_handle, m) == m,
{
}

/// A bungee at or under its rest length produces no force at all.
pub proof fn lemma_bungee_slack_no_force(displacement: Vec3, spring_constant: int, rest_length: int)
    requires
        v3_mag(displacement) <= rest_length,
    ensures
        bungee_force_magnitude(displacement, spring_constant, rest_length) == 0,
        bungee_force(displacement, spring_constant, rest_length) == v3_zero(),
{
}

/// A bungee stretched beyond its rest length pulls with a strictly positive
/// magnitude, provided the stretch times the spring constant comes to at
/// least one fixed-point grain (below that the force truncates to zero).
pub proof fn lemma_bungee_taut_pulls(displacement: Vec3, spring_constant: int, rest_length: int)
    requires
        0 < v3_mag(displacement),
        rest_length < v3_mag(displacement),
        0 <= rest_length,
        0 < spring_constant,
        (v3_mag(displacement) - rest_length) * spring_constant >= SCALE as int,
    ensures
        bungee_force_magnitude(displacement, spring_constant, rest_length) > 0,
{
    let stretch = rsub(v3_mag(displacement), rest_length);
    assert(stretch == v3_mag(displacement) - rest_length);
    lemma_div_is_ordered(SCALE as int, stretch * spring_constant, SCALE as int);
    assert(crate::scalar::divt(stretch * spring_constant, SCALE as int) >= 1);
}

/// A spring away from its rest length (in either direction) pulls or pushes
/// with a strictly positive magnitude, provided the deviation times the
/// spring constant comes to at least one fixed-point grain.
pub proof fn lemma_spring_displaced_acts(displacement: Vec3, spring_constant: int, rest_length: int)
    requires
        0 < v3_mag(displacement),
        0 <= rest_length <= i64::MAX,
        v3_mag(displacement) != rest_length,
        0 < spring_constant,
        (if v3_mag(displacement) >= rest_length {
            v3_mag(displacement) - rest_length
        } else {
            rest_length - v3_mag(displacement)
        }) * spring_constant >= SCALE as int,
    ensures
        spring_force_magnitude(displacement, spring_constant, rest_length) > 0,
{
    let diff = rsub(v3_mag(displacement), rest_length);
    assert(diff == v3_mag(displacement) - rest_length);
    let amount = if diff < 0 {
        rneg(diff)
    } else {
        diff
    };
    assert(amount == if v3_mag(displacement) >= rest_length {
        v3_mag(displacement) - rest_length
    } else {
        rest_length - v3_mag(displacement)
    });
    lemma_div_is_ordered(SCALE as int, amount * spring_constant, SCALE as int);
    assert(crate::scalar::divt(amount * spring_constant, SCALE as int) >= 1);
}

} // verus!
