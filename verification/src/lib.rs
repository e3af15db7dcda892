//! A point-mass physics simulation core: bodies integrate forward in time
//! under accumulated forces, force generators feed those accumulators, and an
//! iterative resolver removes interpenetration and closing velocity from
//! pairwise contacts. Scalars are fixed-point reals (`Real`) so that every
//! numeric step has an exact, machine-checked meaning.

mod scalar;
mod vector;
mod body;
mod arena;
mod force;
mod contact;
mod world;
mod link;
mod particle;

pub use crate::scalar::{Real, SCALE};
pub use crate::scalar::{real_add, real_div, real_mul, real_neg, real_sub};
pub use crate::scalar::{clip64, divt, is_sqrt_of, radd, rdiv, rmul, rneg, rsub, sqrt_floor};
pub use crate::scalar::{lemma_sqrt_floor_exists, lemma_sqrt_floor_unique};
pub use crate::vector::{Vec3, Vector3};
pub use crate::vector::{v3_add, v3_dot, v3_mag, v3_mag_sq, v3_neg, v3_normalize, v3_scale, v3_sub, v3_zero};
pub use crate::body::{integrated, Body, BodyView};
pub use crate::body::{lemma_integrate_clears_forces, lemma_integrate_immovable, lemma_integrate_no_force_no_drift};
pub use crate::body::with_added_force;
pub use crate::arena::{body_map, generator_map, BodySet, ForceGeneratorSet, Handle};
pub use crate::force::{AnchoredBungee, AnchoredSpring, Bungee, Buoyancy, Drag, ForceGenerator, ForceGeneratorKind, ForceRegistration, Gravity, Spring};
pub use crate::force::{bungee_force, bungee_force_magnitude, spring_force, spring_force_magnitude};
pub use crate::force::{lemma_bungee_slack_no_force, lemma_bungee_taut_pulls, lemma_gravity_immovable_noop, lemma_spring_displaced_acts};
pub use crate::contact::{budget_of, contact_live, most_urgent_upto, resolve_interpenetration_spec, resolve_velocity_spec, resolved, resolver_run, resolver_steps, separating_velocity_spec, Contact, ContactResolver};
pub use crate::contact::{lemma_resolver_steps_within_budget, lemma_separating_contact_needs_no_impulse};
pub use crate::world::{applied_registrations, applied_to_targets, integrated_all, ticked, PhysicsWorld};
pub use crate::world::{lemma_generator_keeps_handles, lemma_tick_keeps_handles};
pub use crate::contact::{lemma_equal_mass_elastic_swap, lemma_interpenetration_full_push};
pub use crate::vector::{axis_unit, v3_along, v3_in_range};
pub use crate::link::Link;
pub use crate::particle::Particle;
