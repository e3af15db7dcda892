//! Contact resolution: separating velocity, impulse exchange, penetration
//! push-out, and the iterative resolver's budget.

use impulse::{Body, Contact, ContactResolver, PhysicsWorld, Vector3, SCALE};

fn moving_body(position: Vector3, velocity: Vector3, inverse_mass: i64) -> Body {
    Body {
        position,
        velocity,
        acceleration: Vector3::zero(),
        damping: SCALE,
        inverse_mass,
        force_accumulator: Vector3::zero(),
    }
}

#[test]
fn separating_velocity_of_closing_pair_is_negative() {
    let mut world = PhysicsWorld::default();
    let a = world.insert_body(moving_body(Vector3::new(1000, 0, 0), Vector3::new(-1000, 0, 0), SCALE));
    let b = world.insert_body(moving_body(Vector3::zero(), Vector3::new(1000, 0, 0), SCALE));
    let contact = Contact {
        body_handle: a,
        other_body_handle: Some(b),
        restitution: SCALE,
        normal: Vector3::new(1000, 0, 0),
        penetration: 0,
    };
    assert_eq!(contact.separating_velocity(&world.bodies), Some(-2000));
}

#[test]
fn separating_velocity_of_stale_contact_is_absent() {
    let mut world = PhysicsWorld::default();
    let a = world.insert_body(moving_body(Vector3::zero(), Vector3::zero(), SCALE));
    let b = world.insert_body(moving_body(Vector3::zero(), Vector3::zero(), SCALE));
    world.remove_body(b);
    let contact = Contact {
        body_handle: a,
        other_body_handle: Some(b),
        restitution: SCALE,
        normal: Vector3::new(1000, 0, 0),
        penetration: 0,
    };
    assert_eq!(contact.separating_velocity(&world.bodies), None);
}

#[test]
fn equal_mass_head_on_elastic_swap() {
    let mut world = PhysicsWorld::default();
    let a = world.insert_body(moving_body(Vector3::new(1000, 0, 0), Vector3::new(-1000, 0, 0), SCALE));
    let b = world.insert_body(moving_body(Vector3::zero(), Vector3::new(1000, 0, 0), SCALE));
    let contact = Contact {
        body_handle: a,
        other_body_handle: Some(b),
        restitution: SCALE,
        normal: Vector3::new(1000, 0, 0),
        penetration: 0,
    };
    contact.resolve(&mut world.bodies, SCALE);
    assert_eq!(world.get_body(a).unwrap().velocity, Vector3::new(1000, 0, 0));
    assert_eq!(world.get_body(b).unwrap().velocity, Vector3::new(-1000, 0, 0));
}

#[test]
fn separating_pair_is_untouched() {
    let mut world = PhysicsWorld::default();
    let a = world.insert_body(moving_body(Vector3::new(1000, 0, 0), Vector3::new(1000, 0, 0), SCALE));
    let b = world.insert_body(moving_body(Vector3::zero(), Vector3::new(-1000, 0, 0), SCALE));
    let contact = Contact {
        body_handle: a,
        other_body_handle: Some(b),
        restitution: SCALE,
        normal: Vector3::new(1000, 0, 0),
        penetration: 0,
    };
    contact.resolve(&mut world.bodies, SCALE);
    assert_eq!(world.get_body(a).unwrap().velocity, Vector3::new(1000, 0, 0));
    assert_eq!(world.get_body(b).unwrap().velocity, Vector3::new(-1000, 0, 0));
}

#[test]
fn scenery_bounce_scales_with_restitution() {
    let mut world = PhysicsWorld::default();
    let a = world.insert_body(moving_body(Vector3::zero(), Vector3::new(0, -2000, 0), SCALE));
    let contact = Contact {
        body_handle: a,
        other_body_handle: None,
        restitution: 500,
        normal: Vector3::new(0, 1000, 0),
        penetration: 0,
    };
    contact.resolve(&mut world.bodies, SCALE);
    assert_eq!(world.get_body(a).unwrap().velocity, Vector3::new(0, 1000, 0));
}

#[test]
fn penetration_push_moves_only_the_movable_body() {
    let mut world = PhysicsWorld::default();
    let a = world.insert_body(moving_body(Vector3::zero(), Vector3::zero(), 500));
    let wall = world.insert_body(moving_body(Vector3::new(0, -1000, 0), Vector3::zero(), 0));
    let contact = Contact {
        body_handle: a,
        other_body_handle: Some(wall),
        restitution: SCALE,
        normal: Vector3::new(0, 1000, 0),
        penetration: 300,
    };
    contact.resolve(&mut world.bodies, SCALE);
    assert_eq!(world.get_body(a).unwrap().position, Vector3::new(0, 300, 0));
    assert_eq!(world.get_body(wall).unwrap().position, Vector3::new(0, -1000, 0));
}

#[test]
fn penetration_splits_by_inverse_mass() {
    let mut world = PhysicsWorld::default();
    let a = world.insert_body(moving_body(Vector3::zero(), Vector3::zero(), 1000));
    let b = world.insert_body(moving_body(Vector3::new(0, 0, -500), Vector3::zero(), 1000));
    let contact = Contact {
        body_handle: a,
        other_body_handle: Some(b),
        restitution: SCALE,
        normal: Vector3::new(0, 0, 1000),
        penetration: 400,
    };
    contact.resolve(&mut world.bodies, SCALE);
    assert_eq!(world.get_body(a).unwrap().position, Vector3::new(0, 0, 200));
    assert_eq!(world.get_body(b).unwrap().position, Vector3::new(0, 0, -700));
}

#[test]
fn immovable_pair_is_left_overlapping() {
    let mut world = PhysicsWorld::default();
    let a = world.insert_body(moving_body(Vector3::zero(), Vector3::new(0, -1000, 0), 0));
    let b = world.insert_body(moving_body(Vector3::zero(), Vector3::new(0, 1000, 0), 0));
    let contact = Contact {
        body_handle: a,
        other_body_handle: Some(b),
        restitution: SCALE,
        normal: Vector3::new(0, 1000, 0),
        penetration: 700,
    };
    contact.resolve(&mut world.bodies, SCALE);
    assert_eq!(world.get_body(a).unwrap().position, Vector3::zero());
    assert_eq!(world.get_body(b).unwrap().position, Vector3::zero());
    assert_eq!(world.get_body(a).unwrap().velocity, Vector3::new(0, -1000, 0));
}

#[test]
fn resolver_spends_its_whole_budget_on_a_ping_pong() {
    let mut world = PhysicsWorld::default();
    // one body caught between two scenery contacts with opposite normals:
    // resolving either reverses the velocity and re-closes the other
    let a = world.insert_body(moving_body(Vector3::zero(), Vector3::new(1000, 0, 0), SCALE));
    let left = Contact {
        body_handle: a,
        other_body_handle: None,
        restitution: SCALE,
        normal: Vector3::new(1000, 0, 0),
        penetration: 0,
    };
    let right = Contact {
        body_handle: a,
        other_body_handle: None,
        restitution: SCALE,
        normal: Vector3::new(-1000, 0, 0),
        penetration: 0,
    };
    let mut resolver = ContactResolver { iterations: 4, iterations_used: 0 };
    resolver.resolve_contacts(&[left, right], SCALE, &mut world.bodies);
    assert_eq!(resolver.iterations_used, 4);
    assert!(resolver.iterations_used <= resolver.iterations);
}

#[test]
fn resolver_stops_once_nothing_closes() {
    let mut world = PhysicsWorld::default();
    let a = world.insert_body(moving_body(Vector3::zero(), Vector3::new(0, -2000, 0), SCALE));
    let floor = Contact {
        body_handle: a,
        other_body_handle: None,
        restitution: 0,
        normal: Vector3::new(0, 1000, 0),
        penetration: 0,
    };
    let mut resolver = ContactResolver { iterations: 10, iterations_used: 0 };
    resolver.resolve_contacts(&[floor], SCALE, &mut world.bodies);
    // one resolution kills the closing velocity; the loop then ends early
    assert_eq!(resolver.iterations_used, 1);
    assert_eq!(world.get_body(a).unwrap().velocity, Vector3::zero());
}

#[test]
fn resolver_budget_carries_across_calls() {
    let mut world = PhysicsWorld::default();
    let a = world.insert_body(moving_body(Vector3::zero(), Vector3::new(1000, 0, 0), SCALE));
    let ping = Contact {
        body_handle: a,
        other_body_handle: None,
        restitution: SCALE,
        normal: Vector3::new(1000, 0, 0),
        penetration: 0,
    };
    let pong = Contact {
        body_handle: a,
        other_body_handle: None,
        restitution: SCALE,
        normal: Vector3::new(-1000, 0, 0),
        penetration: 0,
    };
    let mut resolver = ContactResolver { iterations: 3, iterations_used: 0 };
    resolver.resolve_contacts(&[ping, pong], SCALE, &mut world.bodies);
    assert_eq!(resolver.iterations_used, 3);
    let before = world.get_body(a).unwrap().velocity;
    resolver.resolve_contacts(&[ping, pong], SCALE, &mut world.bodies);
    assert_eq!(resolver.iterations_used, 3);
    assert_eq!(world.get_body(a).unwrap().velocity, before);
}

#[test]
fn resolver_skips_stale_contacts() {
    let mut world = PhysicsWorld::default();
    let a = world.insert_body(moving_body(Vector3::zero(), Vector3::new(-1000, 0, 0), SCALE));
    world.remove_body(a);
    let stale = Contact {
        body_handle: a,
        other_body_handle: None,
        restitution: SCALE,
        normal: Vector3::new(1000, 0, 0),
        penetration: 500,
    };
    let mut resolver = ContactResolver { iterations: 5, iterations_used: 0 };
    resolver.resolve_contacts(&[stale], SCALE, &mut world.bodies);
    assert_eq!(resolver.iterations_used, 0);
}

#[test]
fn resting_contact_under_gravity_does_not_bounce() {
    let mut world = PhysicsWorld::default();
    // closing purely through this frame's acceleration: the restitution
    // credit for it is removed, so the target velocity clamps to zero
    let mut body = moving_body(Vector3::zero(), Vector3::new(0, -980, 0), SCALE);
    body.acceleration = Vector3::new(0, -980, 0);
    let a = world.insert_body(body);
    let floor = Contact {
        body_handle: a,
        other_body_handle: None,
        restitution: SCALE,
        normal: Vector3::new(0, 1000, 0),
        penetration: 0,
    };
    floor.resolve(&mut world.bodies, SCALE);
    assert_eq!(world.get_body(a).unwrap().velocity, Vector3::zero());
}

#[test]
fn resolver_takes_the_most_closing_contact_first() {
    let mut world = PhysicsWorld::default();
    let mild = world.insert_body(moving_body(Vector3::zero(), Vector3::new(0, 0, -500), SCALE));
    let urgent = world.insert_body(moving_body(Vector3::zero(), Vector3::new(0, 0, -2000), SCALE));
    let mild_contact = Contact {
        body_handle: mild,
        other_body_handle: None,
        restitution: 0,
        normal: Vector3::new(0, 0, 1000),
        penetration: 0,
    };
    let urgent_contact = Contact {
        body_handle: urgent,
        other_body_handle: None,
        restitution: 0,
        normal: Vector3::new(0, 0, 1000),
        penetration: 0,
    };
    let mut resolver = ContactResolver { iterations: 1, iterations_used: 0 };
    resolver.resolve_contacts(&[mild_contact, urgent_contact], SCALE, &mut world.bodies);
    assert_eq!(resolver.iterations_used, 1);
    assert_eq!(world.get_body(urgent).unwrap().velocity, Vector3::zero());
    assert_eq!(world.get_body(mild).unwrap().velocity, Vector3::new(0, 0, -500));
}
