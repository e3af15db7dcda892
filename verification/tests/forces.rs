//! Each force generator variant, applied through the world's body arena.

use impulse::{
    AnchoredBungee, AnchoredSpring, Body, Bungee, Buoyancy, Drag, ForceGenerator, Gravity,
    PhysicsWorld, Spring, Vector3, SCALE,
};

fn movable_body_at(position: Vector3, inverse_mass: i64) -> Body {
    Body {
        position,
        velocity: Vector3::zero(),
        acceleration: Vector3::zero(),
        damping: SCALE,
        inverse_mass,
        force_accumulator: Vector3::zero(),
    }
}

#[test]
fn gravity_scales_with_mass() {
    let mut world = PhysicsWorld::default();
    // inverse mass one half: mass two, so the force is twice the pull
    let h = world.insert_body(movable_body_at(Vector3::zero(), 500));
    let gravity = Gravity::new(Vector3::new(0, -9800, 0));
    gravity.apply(SCALE, h, &mut world.bodies);
    assert_eq!(
        world.get_body(h).unwrap().force_accumulator,
        Vector3::new(0, -19600, 0)
    );
}

#[test]
fn gravity_skips_infinite_mass() {
    let mut world = PhysicsWorld::default();
    let h = world.insert_body(movable_body_at(Vector3::zero(), 0));
    let gravity = Gravity::new(Vector3::new(0, -9800, 0));
    gravity.apply(SCALE, h, &mut world.bodies);
    assert_eq!(world.get_body(h).unwrap().force_accumulator, Vector3::zero());
}

#[test]
fn gravity_defaults_to_earth() {
    assert_eq!(Gravity::earth_gravity(), Vector3::new(0, -9800, 0));
    assert_eq!(Gravity::default().force, Vector3::new(0, -9800, 0));
}

#[test]
fn drag_opposes_motion() {
    let mut world = PhysicsWorld::default();
    let mut body = movable_body_at(Vector3::zero(), SCALE);
    body.velocity = Vector3::new(3000, 0, 0);
    let h = world.insert_body(body);
    let drag = Drag { k1: 500, k2: 250 };
    drag.apply(SCALE, h, &mut world.bodies);
    // coefficient = 0.5 * 3 + 0.25 * 9 = 3.75, against the motion
    assert_eq!(
        world.get_body(h).unwrap().force_accumulator,
        Vector3::new(-3750, 0, 0)
    );
}

#[test]
fn drag_skips_resting_body() {
    let mut world = PhysicsWorld::default();
    let h = world.insert_body(movable_body_at(Vector3::zero(), SCALE));
    let drag = Drag { k1: 500, k2: 250 };
    drag.apply(SCALE, h, &mut world.bodies);
    assert_eq!(world.get_body(h).unwrap().force_accumulator, Vector3::zero());
}

#[test]
fn anchored_spring_pulls_back_when_stretched() {
    let mut world = PhysicsWorld::default();
    let h = world.insert_body(movable_body_at(Vector3::new(2000, 0, 0), SCALE));
    let spring = AnchoredSpring { anchor: Vector3::zero(), spring_constant: 500, rest_length: 1000 };
    spring.apply(SCALE, h, &mut world.bodies);
    assert_eq!(
        world.get_body(h).unwrap().force_accumulator,
        Vector3::new(-500, 0, 0)
    );
}

#[test]
fn anchored_spring_acts_on_compression_too() {
    let mut world = PhysicsWorld::default();
    let h = world.insert_body(movable_body_at(Vector3::new(500, 0, 0), SCALE));
    let spring = AnchoredSpring { anchor: Vector3::zero(), spring_constant: 1000, rest_length: 1000 };
    spring.apply(SCALE, h, &mut world.bodies);
    let accumulated = world.get_body(h).unwrap().force_accumulator;
    assert_ne!(accumulated, Vector3::zero());
    assert_eq!(accumulated, Vector3::new(-500, 0, 0));
}

#[test]
fn two_body_spring_uses_other_position() {
    let mut world = PhysicsWorld::default();
    let anchor_body = world.insert_body(movable_body_at(Vector3::new(0, 3000, 0), 0));
    let h = world.insert_body(movable_body_at(Vector3::zero(), SCALE));
    let spring = Spring { end_body_handle: anchor_body, spring_constant: 500, rest_length: 1000 };
    spring.apply(SCALE, h, &mut world.bodies);
    // displacement is two units downward beyond the rest length
    assert_eq!(
        world.get_body(h).unwrap().force_accumulator,
        Vector3::new(0, 1000, 0)
    );
}

#[test]
fn spring_with_stale_end_is_inert() {
    let mut world = PhysicsWorld::default();
    let anchor_body = world.insert_body(movable_body_at(Vector3::new(0, 3000, 0), 0));
    let h = world.insert_body(movable_body_at(Vector3::zero(), SCALE));
    world.remove_body(anchor_body);
    let spring = Spring { end_body_handle: anchor_body, spring_constant: 500, rest_length: 1000 };
    spring.apply(SCALE, h, &mut world.bodies);
    assert_eq!(world.get_body(h).unwrap().force_accumulator, Vector3::zero());
}

#[test]
fn bungee_slack_is_inert() {
    let mut world = PhysicsWorld::default();
    let h = world.insert_body(movable_body_at(Vector3::new(500, 0, 0), SCALE));
    let bungee = AnchoredBungee { anchor: Vector3::zero(), spring_constant: 1000, rest_length: 1000 };
    bungee.apply(SCALE, h, &mut world.bodies);
    assert_eq!(world.get_body(h).unwrap().force_accumulator, Vector3::zero());
}

#[test]
fn bungee_at_rest_length_is_inert() {
    let mut world = PhysicsWorld::default();
    let h = world.insert_body(movable_body_at(Vector3::new(1000, 0, 0), SCALE));
    let bungee = AnchoredBungee { anchor: Vector3::zero(), spring_constant: 1000, rest_length: 1000 };
    bungee.apply(SCALE, h, &mut world.bodies);
    assert_eq!(world.get_body(h).unwrap().force_accumulator, Vector3::zero());
}

#[test]
fn bungee_taut_pulls_back() {
    let mut world = PhysicsWorld::default();
    let h = world.insert_body(movable_body_at(Vector3::new(2000, 0, 0), SCALE));
    let bungee = AnchoredBungee { anchor: Vector3::zero(), spring_constant: 500, rest_length: 1000 };
    bungee.apply(SCALE, h, &mut world.bodies);
    let accumulated = world.get_body(h).unwrap().force_accumulator;
    assert_eq!(accumulated, Vector3::new(-500, 0, 0));
    assert!(accumulated.x < 0);
}

#[test]
fn two_body_bungee_taut_pulls_back() {
    let mut world = PhysicsWorld::default();
    let end = world.insert_body(movable_body_at(Vector3::zero(), 0));
    let h = world.insert_body(movable_body_at(Vector3::new(0, 0, 3000), SCALE));
    let bungee = Bungee { end_body_handle: end, spring_constant: 1000, rest_length: 1000 };
    bungee.apply(SCALE, h, &mut world.bodies);
    assert_eq!(
        world.get_body(h).unwrap().force_accumulator,
        Vector3::new(0, 0, -2000)
    );
}

#[test]
fn buoyancy_out_of_water_is_inert() {
    let mut world = PhysicsWorld::default();
    let h = world.insert_body(movable_body_at(Vector3::new(0, 5000, 0), SCALE));
    let buoyancy = Buoyancy { max_depth: 1000, volume: 3000, water_height: 0, liquid_density: 2000 };
    buoyancy.apply(SCALE, h, &mut world.bodies);
    assert_eq!(world.get_body(h).unwrap().force_accumulator, Vector3::zero());
}

#[test]
fn buoyancy_fully_submerged_lifts_displaced_weight() {
    let mut world = PhysicsWorld::default();
    let h = world.insert_body(movable_body_at(Vector3::new(0, -2000, 0), SCALE));
    let buoyancy = Buoyancy { max_depth: 1000, volume: 3000, water_height: 0, liquid_density: 2000 };
    buoyancy.apply(SCALE, h, &mut world.bodies);
    assert_eq!(
        world.get_body(h).unwrap().force_accumulator,
        Vector3::new(0, 6000, 0)
    );
}

#[test]
fn buoyancy_partial_submersion_interpolates() {
    let mut world = PhysicsWorld::default();
    // exactly at the water line: half of the band is submerged
    let h = world.insert_body(movable_body_at(Vector3::zero(), SCALE));
    let buoyancy = Buoyancy { max_depth: 1000, volume: 3000, water_height: 0, liquid_density: 2000 };
    buoyancy.apply(SCALE, h, &mut world.bodies);
    assert_eq!(
        world.get_body(h).unwrap().force_accumulator,
        Vector3::new(0, 3000, 0)
    );
}

#[test]
fn generator_with_stale_target_is_inert() {
    let mut world = PhysicsWorld::default();
    let h = world.insert_body(movable_body_at(Vector3::zero(), 500));
    world.remove_body(h);
    let gravity = Gravity::new(Vector3::new(0, -9800, 0));
    gravity.apply(SCALE, h, &mut world.bodies);
    assert!(world.get_body(h).is_none());
}

#[test]
fn spring_on_coincident_bodies_is_inert() {
    let mut world = PhysicsWorld::default();
    let h = world.insert_body(movable_body_at(Vector3::zero(), SCALE));
    let spring = AnchoredSpring { anchor: Vector3::zero(), spring_constant: 1000, rest_length: 1000 };
    spring.apply(SCALE, h, &mut world.bodies);
    assert_eq!(world.get_body(h).unwrap().force_accumulator, Vector3::zero());
}
