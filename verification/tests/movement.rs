use platformer_physics::actor::simulate_actor_movement;
use platformer_physics::aabb::Box2;
use platformer_physics::cardinal::Cardinal;
use platformer_physics::collider::Collider;
use platformer_physics::solid::Solid;
use platformer_physics::units::Vec2i;
use platformer_physics::velocity::Velocity;
use platformer_physics::SUBUNITS;

#[test]
fn at_rest_nothing_moves() {
    let collider = Collider::aabb(Vec2i::new(1, 1));
    let mut velocity = Velocity::default();
    let mut position = Vec2i::new(5, -3);
    let solids = vec![Solid::new(Vec2i::new(5, -10), Vec2i::new(4, 2))];
    for _ in 0..10 {
        let events = simulate_actor_movement(1, &collider, &mut velocity, &mut position, 64, &solids);
        assert!(events.is_empty());
        assert_eq!(position, Vec2i::new(5, -3));
        assert_eq!(velocity.remainder, Vec2i::new(0, 0));
    }
}

#[test]
fn remainder_carries_half_units_exactly() {
    // 2 units per second at a quarter-second tick: 0.5 units per tick.
    let collider = Collider::aabb(Vec2i::new(1, 1));
    let mut velocity = Velocity::new(Vec2i::new(2 * SUBUNITS, 0));
    let mut position = Vec2i::new(0, 0);
    let solids: Vec<Solid> = Vec::new();
    let tick = SUBUNITS / 4;
    let mut positions = Vec::new();
    let mut remainders = Vec::new();
    for _ in 0..4 {
        let events = simulate_actor_movement(1, &collider, &mut velocity, &mut position, tick, &solids);
        assert!(events.is_empty());
        positions.push(position.x);
        remainders.push(velocity.remainder.x);
    }
    // Not 0 and not 1.5: exactly 2 units after 4 ticks, carried via the
    // remainder.
    assert_eq!(positions, vec![0, 1, 1, 2]);
    assert_eq!(remainders, vec![SUBUNITS / 2, 0, SUBUNITS / 2, 0]);
    assert_eq!(velocity.value, Vec2i::new(2 * SUBUNITS, 0));
}

#[test]
fn remainder_carries_negative_motion() {
    let collider = Collider::aabb(Vec2i::new(1, 1));
    let mut velocity = Velocity::new(Vec2i::new(-2 * SUBUNITS, 0));
    let mut position = Vec2i::new(0, 0);
    let solids: Vec<Solid> = Vec::new();
    let tick = SUBUNITS / 4;
    simulate_actor_movement(1, &collider, &mut velocity, &mut position, tick, &solids);
    assert_eq!(position.x, 0);
    assert_eq!(velocity.remainder.x, -SUBUNITS / 2);
    simulate_actor_movement(1, &collider, &mut velocity, &mut position, tick, &solids);
    assert_eq!(position.x, -1);
    assert_eq!(velocity.remainder.x, 0);
}

#[test]
fn fast_actor_never_tunnels_through_a_wall() {
    // 100 units in one tick toward a wall 8 units away: the actor must
    // stop touching the wall's face and report exactly one collision.
    let collider = Collider::aabb(Vec2i::new(1, 1));
    let mut velocity = Velocity::new(Vec2i::new(100 * SUBUNITS, 0));
    let mut position = Vec2i::new(0, 0);
    let wall = Solid::new(Vec2i::new(10, 0), Vec2i::new(2, 2));
    let solids = vec![wall];
    let events = simulate_actor_movement(9, &collider, &mut velocity, &mut position, SUBUNITS, &solids);
    // The wall's box spans [8,12]: the actor's box [6,8] stops touching it.
    assert_eq!(position, Vec2i::new(7, 0));
    assert_eq!(events.len(), 1);
    assert_eq!(events[0].entity, 9);
    assert_eq!(events[0].direction, Cardinal::East);
    assert_eq!(
        events[0].solid,
        Box2 { min: Vec2i::new(8, -2), max: Vec2i::new(12, 2) }
    );
    // The integrator never touches the velocity value itself.
    assert_eq!(velocity.value, Vec2i::new(100 * SUBUNITS, 0));
}

#[test]
fn falling_actor_lands_on_a_platform() {
    let collider = Collider::aabb(Vec2i::new(1, 1));
    let mut velocity = Velocity::new(Vec2i::new(0, -20 * SUBUNITS));
    let mut position = Vec2i::new(0, 10);
    let platform = Solid::new(Vec2i::new(0, 0), Vec2i::new(2, 2));
    let solids = vec![platform];
    let events = simulate_actor_movement(3, &collider, &mut velocity, &mut position, SUBUNITS, &solids);
    // The platform's box spans [-2,2] vertically: the actor rests at y=3.
    assert_eq!(position, Vec2i::new(0, 3));
    assert_eq!(events.len(), 1);
    assert_eq!(events[0].direction, Cardinal::South);
}

#[test]
fn first_colliding_solid_is_reported_in_enumeration_order() {
    let collider = Collider::aabb(Vec2i::new(1, 1));
    let mut velocity = Velocity::new(Vec2i::new(50 * SUBUNITS, 0));
    let mut position = Vec2i::new(0, 0);
    // Two solids blocking the same step; the one listed first wins.
    let low = Solid::new(Vec2i::new(10, 0), Vec2i::new(2, 2));
    let tall = Solid::new(Vec2i::new(10, 2), Vec2i::new(2, 4));
    let solids = vec![low, tall];
    let events = simulate_actor_movement(1, &collider, &mut velocity, &mut position, SUBUNITS, &solids);
    assert_eq!(events.len(), 1);
    assert_eq!(
        events[0].solid,
        Box2 { min: Vec2i::new(8, -2), max: Vec2i::new(12, 2) }
    );
}

#[test]
fn horizontal_axis_resolves_before_vertical() {
    // Moving diagonally into an inside corner: the horizontal pass stops
    // at the wall first, then the vertical pass stops at the floor, and
    // the events arrive in that order.
    let collider = Collider::aabb(Vec2i::new(1, 1));
    let mut velocity = Velocity::new(Vec2i::new(20 * SUBUNITS, -20 * SUBUNITS));
    let mut position = Vec2i::new(0, 10);
    let wall = Solid::new(Vec2i::new(6, 10), Vec2i::new(2, 20));
    let floor = Solid::new(Vec2i::new(0, -2), Vec2i::new(20, 2));
    let solids = vec![wall, floor];
    let events = simulate_actor_movement(1, &collider, &mut velocity, &mut position, SUBUNITS, &solids);
    assert_eq!(position, Vec2i::new(3, 1));
    assert_eq!(events.len(), 2);
    assert_eq!(events[0].direction, Cardinal::East);
    assert_eq!(events[1].direction, Cardinal::South);
}

#[test]
fn blocked_axis_discards_remaining_steps_but_keeps_fraction() {
    let collider = Collider::aabb(Vec2i::new(1, 1));
    // 10.5 units owed this tick; the wall stops the actor after 7.
    let mut velocity = Velocity::new(Vec2i::new(42 * SUBUNITS, 0));
    let mut position = Vec2i::new(0, 0);
    let wall = Solid::new(Vec2i::new(10, 0), Vec2i::new(2, 2));
    let solids = vec![wall];
    let events =
        simulate_actor_movement(1, &collider, &mut velocity, &mut position, SUBUNITS / 4, &solids);
    assert_eq!(position.x, 7);
    assert_eq!(events.len(), 1);
    // The sub-unit fraction stays in the carry; the discarded whole steps
    // do not.
    assert_eq!(velocity.remainder.x, SUBUNITS / 2);
}

#[test]
fn velocity_direction_and_resets() {
    let mut v = Velocity::new(Vec2i::new(-5, 7));
    assert_eq!(v.get_direction(), Vec2i::new(-1, 1));
    v.remainder = Vec2i::new(3, -4);
    v.reset_x();
    assert_eq!(v.value, Vec2i::new(0, 7));
    assert_eq!(v.remainder, Vec2i::new(0, -4));
    v.reset_y();
    assert_eq!(v.value, Vec2i::new(0, 0));
    assert_eq!(v.remainder, Vec2i::new(0, 0));
    assert_eq!(v.get_direction(), Vec2i::new(0, 0));
}
