//! The world: handle lifecycle across insertions and removals, and the tick
//! ordering of force application and integration.

use impulse::{
    Body, ForceGeneratorKind, Gravity, Link, PhysicsWorld, Vector3, SCALE,
};

fn resting_body(inverse_mass: i64) -> Body {
    Body {
        position: Vector3::zero(),
        velocity: Vector3::zero(),
        acceleration: Vector3::zero(),
        damping: SCALE,
        inverse_mass,
        force_accumulator: Vector3::zero(),
    }
}

#[test]
fn insert_get_remove_roundtrip() {
    let mut world = PhysicsWorld::default();
    let mut body = resting_body(500);
    body.position = Vector3::new(1, 2, 3);
    let h = world.insert_body(body);
    assert_eq!(world.get_body(h).unwrap().position, Vector3::new(1, 2, 3));
    let removed = world.remove_body(h).unwrap();
    assert_eq!(removed.position, Vector3::new(1, 2, 3));
    assert!(world.get_body(h).is_none());
    assert!(world.remove_body(h).is_none());
}

#[test]
fn removal_keeps_other_handles_valid() {
    let mut world = PhysicsWorld::default();
    let mut first = resting_body(500);
    first.position = Vector3::new(10, 0, 0);
    let mut second = resting_body(500);
    second.position = Vector3::new(20, 0, 0);
    let h1 = world.insert_body(first);
    let h2 = world.insert_body(second);
    world.remove_body(h1);
    assert_eq!(world.get_body(h2).unwrap().position, Vector3::new(20, 0, 0));
}

#[test]
fn stale_handle_never_aliases_a_new_body() {
    let mut world = PhysicsWorld::default();
    let h_old = world.insert_body(resting_body(500));
    world.remove_body(h_old);
    let mut replacement = resting_body(500);
    replacement.position = Vector3::new(7, 7, 7);
    let h_new = world.insert_body(replacement);
    assert!(world.get_body(h_old).is_none());
    assert_eq!(world.get_body(h_new).unwrap().position, Vector3::new(7, 7, 7));
}

#[test]
fn tick_applies_forces_before_integrating() {
    let mut world = PhysicsWorld::default();
    let body = world.insert_body(resting_body(500));
    let gravity = world.insert_force_generator(ForceGeneratorKind::Gravity(Gravity::new(
        Vector3::new(0, -9800, 0),
    )));
    world.register(gravity, vec![body]);

    world.tick(SCALE);
    // mass is two, so the force is doubled and the acceleration lands back
    // at the gravity vector; the position still advances by the old velocity
    let after_one = world.get_body(body).unwrap();
    assert_eq!(after_one.velocity, Vector3::new(0, -9800, 0));
    assert_eq!(after_one.position, Vector3::zero());
    assert_eq!(after_one.force_accumulator, Vector3::zero());

    world.tick(SCALE);
    let after_two = world.get_body(body).unwrap();
    assert_eq!(after_two.velocity, Vector3::new(0, -19600, 0));
    assert_eq!(after_two.position, Vector3::new(0, -9800, 0));
}

#[test]
fn tick_combines_generators_on_one_body() {
    let mut world = PhysicsWorld::default();
    let body = world.insert_body(resting_body(SCALE));
    let pull_down = world.insert_force_generator(ForceGeneratorKind::Gravity(Gravity::new(
        Vector3::new(0, -1000, 0),
    )));
    let pull_right = world.insert_force_generator(ForceGeneratorKind::Gravity(Gravity::new(
        Vector3::new(2000, 0, 0),
    )));
    world.register(pull_down, vec![body]);
    world.register(pull_right, vec![body]);
    world.tick(SCALE);
    assert_eq!(world.get_body(body).unwrap().velocity, Vector3::new(2000, -1000, 0));
}

#[test]
fn tick_skips_removed_generators() {
    let mut world = PhysicsWorld::default();
    let body = world.insert_body(resting_body(SCALE));
    let gravity = world.insert_force_generator(ForceGeneratorKind::Gravity(Gravity::new(
        Vector3::new(0, -9800, 0),
    )));
    world.register(gravity, vec![body]);
    world.remove_force_generator(gravity);
    world.tick(SCALE);
    assert_eq!(world.get_body(body).unwrap().velocity, Vector3::zero());
}

#[test]
fn tick_skips_removed_bodies_in_registrations() {
    let mut world = PhysicsWorld::default();
    let gone = world.insert_body(resting_body(SCALE));
    let kept = world.insert_body(resting_body(SCALE));
    let gravity = world.insert_force_generator(ForceGeneratorKind::Gravity(Gravity::new(
        Vector3::new(0, -1000, 0),
    )));
    world.register(gravity, vec![gone, kept]);
    world.remove_body(gone);
    world.tick(SCALE);
    assert_eq!(world.get_body(kept).unwrap().velocity, Vector3::new(0, -1000, 0));
}

#[test]
fn tick_integrates_unregistered_bodies_too() {
    let mut world = PhysicsWorld::default();
    let mut coasting = resting_body(SCALE);
    coasting.velocity = Vector3::new(1000, 0, 0);
    let h = world.insert_body(coasting);
    world.tick(500);
    assert_eq!(world.get_body(h).unwrap().position, Vector3::new(500, 0, 0));
}

#[test]
fn link_measures_distance() {
    let mut world = PhysicsWorld::default();
    let mut first = resting_body(SCALE);
    first.position = Vector3::new(0, 0, 0);
    let mut second = resting_body(SCALE);
    second.position = Vector3::new(3000, 4000, 0);
    let a = world.insert_body(first);
    let b = world.insert_body(second);
    let link = Link { body_handle: a, other_body_handle: b };
    assert_eq!(link.length(&world.bodies), Some(5000));
    world.remove_body(b);
    assert_eq!(link.length(&world.bodies), None);
}

#[test]
fn vector_operations_are_exact() {
    let v = Vector3::new(3000, 4000, 0);
    assert_eq!(v.magnitude(), 5000);
    assert_eq!(v.normalize(), Vector3::new(600, 800, 0));
    assert_eq!(v.add(&Vector3::new(1, 2, 3)), Vector3::new(3001, 4002, 3));
    assert_eq!(v.sub(&Vector3::new(1, 2, 3)), Vector3::new(2999, 3998, -3));
    assert_eq!(v.scale(500), Vector3::new(1500, 2000, 0));
    assert_eq!(v.dot(&Vector3::new(1000, 1000, 1000)), 7000);
    assert_eq!(v.neg(), Vector3::new(-3000, -4000, 0));
    assert_eq!(Vector3::y(), Vector3::new(0, 1000, 0));
}
