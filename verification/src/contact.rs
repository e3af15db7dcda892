//! Pairwise contacts and their resolution.
//!
//! A contact names one body and, optionally, a second one (none means the
//! contact is with immovable scenery), together with the contact normal
//! (pointing from the other participant toward the body), the restitution
//! coefficient and the penetration depth. Resolving a contact removes the
//! closing velocity with an impulse scaled by restitution, then pushes the
//! participants apart in proportion to their inverse masses.

use crate::arena::{body_get, body_map, body_update, BodySet, Handle};
use crate::body::BodyView;
use crate::scalar::{lemma_divt_multiple, lemma_rmul_one, lemma_rmul_zero, radd, rdiv,
    real_add, real_div, real_mul, real_neg, real_sub, rmul, rneg, rsub, Real, SCALE};
use crate::vector::{axis_unit, v3_add, v3_along, v3_dot, v3_in_range, v3_scale, v3_sub, v3_zero,
    Vec3, Vector3};
use vstd::arithmetic::div_mod::{lemma_div_pos_is_pos, lemma_fundamental_div_mod};
use vstd::prelude::*;

verus! {

/// Two objects in contact: a body and either a second body or immovable
/// scenery. Resolving the contact removes their interpenetration and applies
/// enough impulse to keep them apart; colliding bodies may also rebound.
#[derive(Clone, Copy, Debug)]
pub struct Contact {
    pub body_handle: Handle,
    /// The second participant; absent for a contact with immovable scenery,
    /// which never moves and has no velocity.
    pub other_body_handle: Option<Handle>,
    /// The restitution coefficient at the contact (`SCALE` bounces fully,
    /// zero not at all).
    pub restitution: Real,
    /// The contact direction in world coordinates, pointing from the other
    /// participant toward the body; a unit vector.
    pub normal: Vector3,
    /// The overlap depth; positive means the participants interpenetrate.
    pub penetration: Real,
}

/// Whether every participant of the contact is live in the bodies map. A
/// contact with a stale handle is skipped entirely: a body removed mid-frame
/// is an expected, recoverable state.
pub open spec fn contact_live(c: Contact, m: Map<Handle, BodyView>) -> bool {
    &&& m.dom().contains(c.body_handle)
    &&& match c.other_body_handle {
        Some(h) => m.dom().contains(h),
        None => true,
    }
}

/// The relative velocity of the participants along the contact normal;
/// positive means they move apart. Scenery stands still.
pub open spec fn separating_velocity_spec(c: Contact, m: Map<Handle, BodyView>) -> int
    recommends
        contact_live(c, m),
{
    let other_velocity = match c.other_body_handle {
        Some(h) => m[h].velocity,
        None => v3_zero(),
    };
    v3_dot(v3_sub(m[c.body_handle].velocity, other_velocity), c.normal@)
}

/// The bodies map after the velocity half of resolution.
///
/// Nothing happens if a participant is stale, if the pair already separates
/// (positive separating velocity), or if both participants are immovable.
/// Otherwise the target separating velocity is the reflection scaled by
/// restitution, lessened by the part of the closing velocity that this
/// frame's acceleration alone contributed (so a resting contact does not
/// bounce forever), and the impulse realizing it is split between the
/// participants in proportion to their inverse masses.
pub open spec fn resolve_velocity_spec(c: Contact, m: Map<Handle, BodyView>, duration: int) -> Map<
    Handle,
    BodyView,
> {
    if !contact_live(c, m) {
        m
    } else {
        let sep = separating_velocity_spec(c, m);
        if sep > 0 {
            m
        } else {
            let inverse_mass_a = m[c.body_handle].inverse_mass;
            let inverse_mass_b = match c.other_body_handle {
                Some(h) => m[h].inverse_mass,
                None => 0,
            };
            let total_inverse_mass = radd(inverse_mass_a, inverse_mass_b);
            if total_inverse_mass <= 0 {
                m
            } else {
                let bounce = rmul(rneg(sep), c.restitution as int);
                let acceleration_sep = rmul(
                    v3_dot(m[c.body_handle].acceleration, c.normal@),
                    duration,
                );
                let target = if acceleration_sep < 0 {
                    let lowered = radd(bounce, rmul(c.restitution as int, acceleration_sep));
                    if lowered < 0 {
                        0
                    } else {
                        lowered
                    }
                } else {
                    bounce
                };
                let impulse = rdiv(rsub(target, sep), total_inverse_mass);
                let per_inverse_mass = v3_scale(c.normal@, impulse);
                let a = m[c.body_handle];
                let pushed = m.insert(
                    c.body_handle,
                    BodyView {
                        velocity: v3_add(a.velocity, v3_scale(per_inverse_mass, inverse_mass_a)),
                        ..a
                    },
                );
                match c.other_body_handle {
                    Some(h) => {
                        let b = pushed[h];
                        pushed.insert(
                            h,
                            BodyView {
                                velocity: v3_add(
                                    b.velocity,
                                    v3_scale(per_inverse_mass, rneg(b.inverse_mass)),
                                ),
                                ..b
                            },
                        )
                    },
                    None => pushed,
                }
            }
        }
    }
}

/// The bodies map after the interpenetration half of resolution.
///
/// Nothing happens without overlap, with a stale participant, or when both
/// participants are immovable (an accepted limitation, not an error).
/// Otherwise each participant is displaced along the normal in proportion to
/// its inverse mass, together covering the whole penetration depth.
pub open spec fn resolve_interpenetration_spec(c: Contact, m: Map<Handle, BodyView>) -> Map<
    Handle,
    BodyView,
> {
    if !contact_live(c, m) || c.penetration <= 0 {
        m
    } else {
        let inverse_mass_a = m[c.body_handle].inverse_mass;
        let inverse_mass_b = match c.other_body_handle {
            Some(h) => m[h].inverse_mass,
            None => 0,
        };
        let total_inverse_mass = radd(inverse_mass_a, inverse_mass_b);
        if total_inverse_mass <= 0 {
            m
        } else {
            let move_per_inverse_mass = v3_scale(
                c.normal@,
                rdiv(c.penetration as int, total_inverse_mass),
            );
            let a = m[c.body_handle];
            let pushed = m.insert(
                c.body_handle,
                BodyView {
                    position: v3_add(a.position, v3_scale(move_per_inverse_mass, inverse_mass_a)),
                    ..a
                },
            );
            match c.other_body_handle {
                Some(h) => {
                    let b = pushed[h];
                    pushed.insert(
                        h,
                        BodyView {
                            position: v3_add(
                                b.position,
                                v3_scale(move_per_inverse_mass, rneg(b.inverse_mass)),
                            ),
                            ..b
                        },
                    )
                },
                None => pushed,
            }
        }
    }
}

/// Full resolution of one contact: velocity first, then interpenetration.
pub open spec fn resolved(c: Contact, m: Map<Handle, BodyView>, duration: int) -> Map<
    Handle,
    BodyView,
> {
    resolve_interpenetration_spec(c, resolve_velocity_spec(c, m, duration))
}

impl Contact {
    /// The separating velocity of the participants, or nothing when a
    /// participant's handle is stale.
    pub fn separating_velocity(&self, bodies: &BodySet) -> (r: Option<Real>)
        ensures
            match r {
                Some(v) => contact_live(*self, body_map(*bodies)) && v as int
                    == separating_velocity_spec(*self, body_map(*bodies)),
                None => !contact_live(*self, body_map(*bodies)),
            },
    {
        let body = match body_get(bodies, self.body_handle) {
            Some(b) => b,
            None => {
                return None;
            },
        };
        let other_velocity = match self.other_body_handle {
            Some(h) => match body_get(bodies, h) {
                Some(b) => b.velocity,
                None => {
                    return None;
                },
            },
            None => Vector3::zero(),
        };
        Some(body.velocity.sub(&other_velocity).dot(&self.normal))
    }

    /// Resolve this contact for velocity and then for interpenetration.
    pub fn resolve(&self, bodies: &mut BodySet, duration: Real)
        ensures
            body_map(*final(bodies)) == resolved(*self, body_map(*old(bodies)), duration as int),
    {
        self.resolve_velocity(bodies, duration);
        self.resolve_interpenetration(bodies);
    }

    /// Remove the closing velocity of the pair with a restitution-scaled
    /// impulse, split between the participants by inverse mass.
    fn resolve_velocity(&self, bodies: &mut BodySet, duration: Real)
        ensures
            body_map(*final(bodies)) == resolve_velocity_spec(
                *self,
                body_map(*old(bodies)),
                duration as int,
            ),
    {
        let body = match body_get(bodies, self.body_handle) {
            Some(b) => b,
            None => {
                return ;
            },
        };
        let other = match self.other_body_handle {
            Some(h) => match body_get(bodies, h) {
                Some(b) => Some(b),
                None => {
                    return ;
                },
            },
            None => None,
        };
        let other_velocity = match &other {
            Some(b) => b.velocity,
            None => Vector3::zero(),
        };
        let sep = body.velocity.sub(&other_velocity).dot(&self.normal);
        if sep > 0 {
            // The pair is separating or stationary: no impulse is owed.
            return ;
        }
        let other_inverse_mass = match &other {
            Some(b) => b.inverse_mass,
            None => 0,
        };
        let total_inverse_mass = real_add(body.inverse_mass, other_inverse_mass);
        if total_inverse_mass <= 0 {
            // Both participants immovable: nothing can absorb an impulse.
            return ;
        }
        let mut target = real_mul(real_neg(sep), self.restitution);
        // Velocity built up by this frame's acceleration alone must not be
        // bounced back, or a resting contact re-accelerates every frame.
        let acceleration_sep = real_mul(body.acceleration.dot(&self.normal), duration);
        if acceleration_sep < 0 {
            target = real_add(target, real_mul(self.restitution, acceleration_sep));
            if target < 0 {
                target = 0;
            }
        }
        let impulse = real_div(real_sub(target, sep), total_inverse_mass);
        let per_inverse_mass = self.normal.scale(impulse);
        let mut updated = body;
        updated.velocity = body.velocity.add(&per_inverse_mass.scale(body.inverse_mass));
        body_update(bodies, self.body_handle, updated);
        if let Some(h) = self.other_body_handle {
            let second = match body_get(bodies, h) {
                Some(b) => b,
                None => {
                    return ;
                },
            };
            let mut updated_second = second;
            updated_second.velocity = second.velocity.add(
                &per_inverse_mass.scale(real_neg(second.inverse_mass)),
            );
            body_update(bodies, h, updated_second);
        }
    }

    /// Push the participants apart along the normal, each in proportion to
    /// its inverse mass, until the overlap is gone.
    fn resolve_interpenetration(&self, bodies: &mut BodySet)
        ensures
            body_map(*final(bodies)) == resolve_interpenetration_spec(
                *self,
                body_map(*old(bodies)),
            ),
    {
        let body = match body_get(bodies, self.body_handle) {
            Some(b) => b,
            None => {
                return ;
            },
        };
        let other = match self.other_body_handle {
            Some(h) => match body_get(bodies, h) {
                Some(b) => Some(b),
                None => {
                    return ;
                },
            },
            None => None,
        };
        if self.penetration <= 0 {
            return ;
        }
        let other_inverse_mass = match &other {
            Some(b) => b.inverse_mass,
            None => 0,
        };
        let total_inverse_mass = real_add(body.inverse_mass, other_inverse_mass);
        if total_inverse_mass <= 0 {
            return ;
        }
        let move_per_inverse_mass = self.normal.scale(
            real_div(self.penetration, total_inverse_mass),
        );
        let mut updated = body;
        updated.position = body.position.add(&move_per_inverse_mass.scale(body.inverse_mass));
        body_update(bodies, self.body_handle, updated);
        if let Some(h) = self.other_body_handle {
            let second = match body_get(bodies, h) {
                Some(b) => b,
                None => {
                    return ;
                },
            };
            let mut updated_second = second;
            updated_second.position = second.position.add(
                &move_per_inverse_mass.scale(real_neg(second.inverse_mass)),
            );
            body_update(bodies, h, updated_second);
        }
    }
}

/// The most urgent contact among the first `n`: the live contact with the
/// smallest (most closing) separating velocity, provided it is closing at
/// all. Earlier contacts win ties.
pub open spec fn most_urgent_upto(contacts: Seq<Contact>, m: Map<Handle, BodyView>, n: int) -> Option<
    int,
>
    decreases n,
{
    if n <= 0 {
        None::<int>
    } else {
        let prev = most_urgent_upto(contacts, m, n - 1);
        let c = contacts[n - 1];
        if contact_live(c, m) && separating_velocity_spec(c, m) < 0 {
            match prev {
                Some(j) => if separating_velocity_spec(c, m) < separating_velocity_spec(
                    contacts[j],
                    m,
                ) {
                    Some(n - 1)
                } else {
                    Some(j)
                },
                None => Some(n - 1),
            }
        } else {
            prev
        }
    }
}

/// The bodies map after the resolver spends up to `budget` rounds, each
/// round fully resolving the currently most urgent contact, stopping early
/// once no contact is closing.
pub open spec fn resolver_run(
    contacts: Seq<Contact>,
    m: Map<Handle, BodyView>,
    duration: int,
    budget: nat,
) -> Map<Handle, BodyView>
    decreases budget,
{
    if budget == 0 {
        m
    } else {
        match most_urgent_upto(contacts, m, contacts.len() as int) {
            Some(j) => resolver_run(
                contacts,
                resolved(contacts[j], m, duration),
                duration,
                (budget - 1) as nat,
            ),
            None => m,
        }
    }
}

/// How many per-contact resolutions the resolver performs within `budget`.
pub open spec fn resolver_steps(
    contacts: Seq<Contact>,
    m: Map<Handle, BodyView>,
    duration: int,
    budget: nat,
) -> nat
    decreases budget,
{
    if budget == 0 {
        0
    } else {
        match most_urgent_upto(contacts, m, contacts.len() as int) {
            Some(j) => 1 + resolver_steps(
                contacts,
                resolved(contacts[j], m, duration),
                duration,
                (budget - 1) as nat,
            ),
            None => 0,
        }
    }
}

/// The resolver never performs more resolutions than its budget allows.
pub proof fn lemma_resolver_steps_within_budget(
    contacts: Seq<Contact>,
    m: Map<Handle, BodyView>,
    duration: int,
    budget: nat,
)
    ensures
        resolver_steps(contacts, m, duration, budget) <= budget,
    decreases budget,
{
    if budget > 0 {
        match most_urgent_upto(contacts, m, contacts.len() as int) {
            Some(j) => lemma_resolver_steps_within_budget(
                contacts,
                resolved(contacts[j], m, duration),
                duration,
                (budget - 1) as nat,
            ),
            None => {},
        }
    }
}

/// Velocity resolution is a no-op whenever the pair already separates.
pub proof fn lemma_separating_contact_needs_no_impulse(
    c: Contact,
    m: Map<Handle, BodyView>,
    duration: int,
)
    requires
        separating_velocity_spec(c, m) > 0,
    ensures
        resolve_velocity_spec(c, m, duration) == m,
{
}

/// The scalar arithmetic behind an equal-mass, full-restitution, head-on
/// exchange along an axis: every fixed-point step lands exactly.
proof fn lemma_swap_scalar(s: int, v: int, im: int, q: int)
    requires
        s == 1 || s == -1,
        0 < v,
        4 * v <= i64::MAX,
        0 < im,
        2 * im <= i64::MAX,
        (2 * v * SCALE) % im == 0,
        q == 2 * v * SCALE / im,
        q <= i64::MAX,
    ensures
        rsub(-(s * v), s * v) == -2 * s * v,
        rmul(-2 * s * v, s * SCALE) == -2 * v,
        rneg(-2 * v) == 2 * v,
        rmul(2 * v, SCALE as int) == 2 * v,
        radd(im, im) == 2 * im,
        rsub(2 * v, -2 * v) == 4 * v,
        0 <= q,
        rdiv(4 * v, 2 * im) == q,
        rmul(s * SCALE, q) == s * q,
        rmul(s * q, im) == 2 * s * v,
        rneg(im) == -im,
        rmul(s * q, -im) == -2 * s * v,
        radd(-(s * v), 2 * s * v) == s * v,
        radd(s * v, -2 * s * v) == -(s * v),
{
    lemma_div_pos_is_pos(2 * v * SCALE, im);
    lemma_fundamental_div_mod(2 * v * SCALE, im);
    assert(2 * v * SCALE == im * q);
    assert((-2 * s * v) * (s * SCALE) == (-2 * v) * SCALE) by (nonlinear_arith)
        requires
            s == 1 || s == -1,
    ;
    lemma_divt_multiple(-2 * v, SCALE as int);
    lemma_rmul_one(2 * v);
    assert(4 * v * SCALE == q * (2 * im)) by (nonlinear_arith)
        requires
            2 * v * SCALE == im * q,
    ;
    lemma_divt_multiple(q, 2 * im);
    assert((s * SCALE) * q == (s * q) * SCALE) by (nonlinear_arith);
    lemma_divt_multiple(s * q, SCALE as int);
    assert((s * q) * im == (2 * s * v) * SCALE) by (nonlinear_arith)
        requires
            2 * v * SCALE == im * q,
            s == 1 || s == -1,
    ;
    lemma_divt_multiple(2 * s * v, SCALE as int);
    assert((s * q) * (-im) == (-2 * s * v) * SCALE) by (nonlinear_arith)
        requires
            2 * v * SCALE == im * q,
            s == 1 || s == -1,
    ;
    lemma_divt_multiple(-2 * s * v, SCALE as int);
}

/// Contact velocity resolution swaps the velocities of an equal-mass pair
/// meeting head on along an axis with full restitution: each body leaves
/// with exactly the velocity the other arrived with.
///
/// The normal is one of the exactly representable axis units, and the stated
/// divisibility keeps the impulse on the fixed-point grid; off the grid the
/// exchange holds only up to truncation.
pub proof fn lemma_equal_mass_elastic_swap(
    c: Contact,
    m: Map<Handle, BodyView>,
    other: Handle,
    v: int,
    im: int,
    duration: int,
)
    requires
        c.other_body_handle == Some(other),
        other != c.body_handle,
        m.dom().contains(c.body_handle),
        m.dom().contains(other),
        c.restitution == SCALE,
        axis_unit(c.normal@),
        m[c.body_handle].velocity == v3_along(c.normal@, -v),
        m[other].velocity == v3_along(c.normal@, v),
        m[c.body_handle].acceleration == v3_zero(),
        m[c.body_handle].inverse_mass == im,
        m[other].inverse_mass == im,
        0 < v,
        4 * v <= i64::MAX,
        0 < im,
        2 * im <= i64::MAX,
        (2 * v * SCALE) % im == 0,
        2 * v * SCALE / im <= i64::MAX,
    ensures
        resolve_velocity_spec(c, m, duration)[c.body_handle].velocity == m[other].velocity,
        resolve_velocity_spec(c, m, duration)[other].velocity == m[c.body_handle].velocity,
        resolve_velocity_spec(c, m, duration)[c.body_handle].position == m[c.body_handle].position,
        resolve_velocity_spec(c, m, duration)[other].position == m[other].position,
{
    let n = c.normal@;
    let q = 2 * v * SCALE / im;
    let va = m[c.body_handle].velocity;
    let vb = m[other].velocity;
    lemma_rmul_zero(duration);
    lemma_rmul_zero(0);
    lemma_rmul_zero(q);
    lemma_rmul_zero(im);
    lemma_rmul_zero(-im);
    lemma_rmul_zero(SCALE as int);
    lemma_rmul_zero(-(SCALE as int));
    if n.y == 0 && n.z == 0 {
        let s: int = if n.x > 0 {
            1
        } else {
            -1
        };
        assert(n.x == s * SCALE);
        lemma_swap_scalar(s, v, im, q);
        assert(va == Vec3 { x: -(s * v), y: 0, z: 0 });
        assert(vb == Vec3 { x: s * v, y: 0, z: 0 });
        assert(separating_velocity_spec(c, m) == -2 * v);
        let per = v3_scale(n, q);
        assert(per == Vec3 { x: s * q, y: 0, z: 0 });
        assert(v3_add(va, v3_scale(per, im)) == vb);
        assert(v3_add(vb, v3_scale(per, rneg(im))) == va);
    } else if n.x == 0 && n.z == 0 {
        let s: int = if n.y > 0 {
            1
        } else {
            -1
        };
        assert(n.y == s * SCALE);
        lemma_swap_scalar(s, v, im, q);
        assert(va == Vec3 { x: 0, y: -(s * v), z: 0 });
        assert(vb == Vec3 { x: 0, y: s * v, z: 0 });
        assert(separating_velocity_spec(c, m) == -2 * v);
        let per = v3_scale(n, q);
        assert(per == Vec3 { x: 0, y: s * q, z: 0 });
        assert(v3_add(va, v3_scale(per, im)) == vb);
        assert(v3_add(vb, v3_scale(per, rneg(im))) == va);
    } else {
        let s: int = if n.z > 0 {
            1
        } else {
            -1
        };
        assert(n.z == s * SCALE);
        lemma_swap_scalar(s, v, im, q);
        assert(va == Vec3 { x: 0, y: 0, z: -(s * v) });
        assert(vb == Vec3 { x: 0, y: 0, z: s * v });
        assert(separating_velocity_spec(c, m) == -2 * v);
        let per = v3_scale(n, q);
        assert(per == Vec3 { x: 0, y: 0, z: s * q });
        assert(v3_add(va, v3_scale(per, im)) == vb);
        assert(v3_add(vb, v3_scale(per, rneg(im))) == va);
    }
}

/// The scalar arithmetic behind an exact interpenetration push along an
/// axis: the quotient and the rescaling land back on the grid without loss.
proof fn lemma_push_scalar(s: int, p: int, ia: int, q: int)
    requires
        s == 1 || s == -1,
        0 < p <= i64::MAX,
        0 < ia <= i64::MAX,
        (p * SCALE) % ia == 0,
        q == p * SCALE / ia,
        q <= i64::MAX,
    ensures
        radd(ia, 0) == ia,
        0 <= q,
        rdiv(p, ia) == q,
        rmul(s * SCALE, q) == s * q,
        rmul(s * q, ia) == s * p,
        rneg(0) == 0,
{
    lemma_div_pos_is_pos(p * SCALE, ia);
    lemma_fundamental_div_mod(p * SCALE, ia);
    assert(p * SCALE == ia * q);
    lemma_divt_multiple(q, ia);
    assert(q * ia == p * SCALE) by (nonlinear_arith)
        requires
            p * SCALE == ia * q,
    ;
    assert((s * SCALE) * q == (s * q) * SCALE) by (nonlinear_arith);
    lemma_divt_multiple(s * q, SCALE as int);
    assert((s * q) * ia == (s * p) * SCALE) by (nonlinear_arith)
        requires
            p * SCALE == ia * q,
            s == 1 || s == -1,
    ;
    lemma_divt_multiple(s * p, SCALE as int);
}

/// Interpenetration resolution between a movable body and an immovable one
/// moves the movable body the whole penetration depth along the normal and
/// leaves the immovable one exactly where it was.
///
/// The normal is an axis unit and the stated divisibility keeps the push on
/// the fixed-point grid; off the grid the depth recovered is the truncated
/// quotient instead.
pub proof fn lemma_interpenetration_full_push(c: Contact, m: Map<Handle, BodyView>, other: Handle)
    requires
        c.other_body_handle == Some(other),
        other != c.body_handle,
        m.dom().contains(c.body_handle),
        m.dom().contains(other),
        0 < c.penetration,
        axis_unit(c.normal@),
        0 < m[c.body_handle].inverse_mass <= i64::MAX,
        m[other].inverse_mass == 0,
        (c.penetration * SCALE) % m[c.body_handle].inverse_mass == 0,
        c.penetration * SCALE / m[c.body_handle].inverse_mass <= i64::MAX,
        v3_in_range(m[c.body_handle].position),
        v3_in_range(m[other].position),
    ensures
        resolve_interpenetration_spec(c, m)[c.body_handle].position == v3_add(
            m[c.body_handle].position,
            v3_along(c.normal@, c.penetration as int),
        ),
        resolve_interpenetration_spec(c, m)[other] == m[other],
{
    let n = c.normal@;
    let p = c.penetration as int;
    let ia = m[c.body_handle].inverse_mass;
    let q = p * SCALE / ia;
    lemma_rmul_zero(0);
    lemma_rmul_zero(q);
    lemma_rmul_zero(ia);
    lemma_rmul_zero(SCALE as int);
    lemma_rmul_zero(-(SCALE as int));
    let moved = resolve_interpenetration_spec(c, m);
    let b = m[other];
    if n.y == 0 && n.z == 0 {
        let s: int = if n.x > 0 {
            1
        } else {
            -1
        };
        assert(n.x == s * SCALE);
        lemma_push_scalar(s, p, ia, q);
        let move_per = v3_scale(n, q);
        assert(move_per == Vec3 { x: s * q, y: 0, z: 0 });
        assert(v3_scale(move_per, ia) == Vec3 { x: s * p, y: 0, z: 0 });
        if s == 1 {
            assert(s * p == p) by (nonlinear_arith)
                requires
                    s == 1,
            ;
            assert(v3_along(n, p) == Vec3 { x: s * p, y: 0, z: 0 });
        } else {
            assert(s * p == -p) by (nonlinear_arith)
                requires
                    s == -1,
            ;
            assert(v3_along(n, p) == Vec3 { x: s * p, y: 0, z: 0 });
        }
        assert(v3_scale(move_per, rneg(0)) == v3_zero());
        assert(v3_add(b.position, v3_zero()) == b.position);
        assert(moved[other] == b);
    } else if n.x == 0 && n.z == 0 {
        let s: int = if n.y > 0 {
            1
        } else {
            -1
        };
        assert(n.y == s * SCALE);
        lemma_push_scalar(s, p, ia, q);
        let move_per = v3_scale(n, q);
        assert(move_per == Vec3 { x: 0, y: s * q, z: 0 });
        assert(v3_scale(move_per, ia) == Vec3 { x: 0, y: s * p, z: 0 });
        if s == 1 {
            assert(s * p == p) by (nonlinear_arith)
                requires
                    s == 1,
            ;
            assert(v3_along(n, p) == Vec3 { x: 0, y: s * p, z: 0 });
        } else {
            assert(s * p == -p) by (nonlinear_arith)
                requires
                    s == -1,
            ;
            assert(v3_along(n, p) == Vec3 { x: 0, y: s * p, z: 0 });
        }
        assert(v3_scale(move_per, rneg(0)) == v3_zero());
        assert(v3_add(b.position, v3_zero()) == b.position);
        assert(moved[other] == b);
    } else {
        let s: int = if n.z > 0 {
            1
        } else {
            -1
        };
        assert(n.z == s * SCALE);
        lemma_push_scalar(s, p, ia, q);
        let move_per = v3_scale(n, q);
        assert(move_per == Vec3 { x: 0, y: 0, z: s * q });
        assert(v3_scale(move_per, ia) == Vec3 { x: 0, y: 0, z: s * p });
        if s == 1 {
            assert(s * p == p) by (nonlinear_arith)
                requires
                    s == 1,
            ;
            assert(v3_along(n, p) == Vec3 { x: 0, y: 0, z: s * p });
        } else {
            assert(s * p == -p) by (nonlinear_arith)
                requires
                    s == -1,
            ;
            assert(v3_along(n, p) == Vec3 { x: 0, y: 0, z: s * p });
        }
        assert(v3_scale(move_per, rneg(0)) == v3_zero());
        assert(v3_add(b.position, v3_zero()) == b.position);
        assert(moved[other] == b);
    }
}

/// Find the most urgent contact of the batch: the live, closing contact with
/// the smallest separating velocity.
fn find_most_urgent(contacts: &[Contact], bodies: &BodySet) -> (r: Option<usize>)
    ensures
        match r {
            Some(i) => i < contacts@.len() && most_urgent_upto(
                contacts@,
                body_map(*bodies),
                contacts@.len() as int,
            ) == Some(i as int),
            None => most_urgent_upto(contacts@, body_map(*bodies), contacts@.len() as int)
                is None,
        },
{
    let ghost m = body_map(*bodies);
    let mut best: Option<usize> = None;
    let mut best_sep: Real = 0;
    let mut i: usize = 0;
    while i < contacts.len()
        invariant
            i <= contacts@.len(),
            m == body_map(*bodies),
            match best {
                Some(j) => j < i && most_urgent_upto(contacts@, m, i as int) == Some(j as int)
                    && best_sep as int == separating_velocity_spec(contacts@[j as int], m),
                None => most_urgent_upto(contacts@, m, i as int) is None,
            },
        decreases contacts@.len() - i,
    {
        match contacts[i].separating_velocity(bodies) {
            Some(sep) => {
                if sep < 0 {
                    match best {
                        Some(_) => {
                            if sep < best_sep {
                                best = Some(i);
                                best_sep = sep;
                            }
                        },
                        None => {
                            best = Some(i);
                            best_sep = sep;
                        },
                    }
                }
            },
            None => {},
        }
        i = i + 1;
    }
    best
}

/// The iterative contact resolver. One instance can be shared for the whole
/// simulation; `iterations` caps how many per-contact resolutions all calls
/// together may spend, and `iterations_used` tracks how many they did.
#[derive(Clone, Copy, Debug)]
pub struct ContactResolver {
    pub iterations: u32,
    pub iterations_used: u32,
}

impl Default for ContactResolver {
    /// A resolver with no budget spent and none granted yet.
    fn default() -> (r: ContactResolver)
        ensures
            r.iterations == 0,
            r.iterations_used == 0,
    {
        ContactResolver { iterations: 0, iterations_used: 0 }
    }
}

impl ContactResolver {
    /// Resolve a batch of contacts for both velocity and penetration.
    ///
    /// Each round finds the contact with the most closing separating
    /// velocity and resolves it fully; the loop ends when no contact is
    /// closing or when the iteration budget runs out, whichever comes first.
    /// Contacts that cannot interact should go to separate calls: resolving
    /// one contact can disturb another that shares a body, and the algorithm
    /// spends its budget fastest on large interacting batches.
    pub fn resolve_contacts(&mut self, contacts: &[Contact], duration: Real, bodies: &mut BodySet)
        ensures
            final(self).iterations == old(self).iterations,
            old(self).iterations_used <= final(self).iterations_used,
            body_map(*final(bodies)) == resolver_run(
                contacts@,
                body_map(*old(bodies)),
                duration as int,
                budget_of(*old(self)),
            ),
            final(self).iterations_used == old(self).iterations_used + resolver_steps(
                contacts@,
                body_map(*old(bodies)),
                duration as int,
                budget_of(*old(self)),
            ),
            final(self).iterations_used <= vstd::math::max(
                old(self).iterations_used as int,
                old(self).iterations as int,
            ),
    {
        proof {
            lemma_resolver_steps_within_budget(
                contacts@,
                body_map(*bodies),
                duration as int,
                budget_of(*self),
            );
        }
        let ghost m_start = body_map(*bodies);
        let ghost budget_start = budget_of(*self);
        while self.iterations_used < self.iterations
            invariant
                self.iterations == old(self).iterations,
                old(self).iterations_used <= self.iterations_used,
                self.iterations_used <= vstd::math::max(
                    old(self).iterations_used as int,
                    old(self).iterations as int,
                ),
                resolver_run(contacts@, m_start, duration as int, budget_start) == resolver_run(
                    contacts@,
                    body_map(*bodies),
                    duration as int,
                    budget_of(*self),
                ),
                old(self).iterations_used + resolver_steps(
                    contacts@,
                    m_start,
                    duration as int,
                    budget_start,
                ) == self.iterations_used + resolver_steps(
                    contacts@,
                    body_map(*bodies),
                    duration as int,
                    budget_of(*self),
                ),
            ensures
                self.iterations_used >= self.iterations || most_urgent_upto(
                    contacts@,
                    body_map(*bodies),
                    contacts@.len() as int,
                ) is None,
            decreases self.iterations - self.iterations_used,
        {
            let chosen = match find_most_urgent(contacts, bodies) {
                Some(i) => i,
                None => {
                    break ;
                },
            };
            contacts[chosen].resolve(bodies, duration);
            self.iterations_used = self.iterations_used + 1;
        }
    }
}

/// The per-contact resolutions a resolver may still spend.
pub open spec fn budget_of(resolver: ContactResolver) -> nat {
    if resolver.iterations_used < resolver.iterations {
        (resolver.iterations - resolver.iterations_used) as nat
    } else {
        0
    }
}

} // verus!
