use platformer_physics::aabb::Box2;
use platformer_physics::actor::Actor;
use platformer_physics::cardinal::Cardinal;
use platformer_physics::collider::{Collider, CollisionEvent};
use platformer_physics::player::{
    approach, get_input_axis, handle_collision, handle_input, update_player_grounded, Player,
    PlayerCollider, FALL_VELOCITY, JUMP_VELOCITY, VELOCITY,
};
use platformer_physics::solid::Solid;
use platformer_physics::units::Vec2i;
use platformer_physics::velocity::Velocity;
use platformer_physics::SUBUNITS;

#[test]
fn input_axis_combinations() {
    assert_eq!(get_input_axis(true, false), 1);
    assert_eq!(get_input_axis(false, true), -1);
    assert_eq!(get_input_axis(true, true), 0);
    assert_eq!(get_input_axis(false, false), 0);
}

#[test]
fn approach_moves_toward_target_without_overshoot() {
    assert_eq!(approach(0, 100, 30), 30);
    assert_eq!(approach(90, 100, 30), 100);
    assert_eq!(approach(100, 0, 30), 70);
    assert_eq!(approach(10, 0, 30), 0);
    assert_eq!(approach(-50, -100, 30), -80);
    assert_eq!(approach(50, 50, 30), 50);
}

#[test]
fn input_accelerates_toward_held_direction() {
    let mut velocity = Velocity::default();
    let player = Player::default();
    // A full second of acceleration reaches both speed caps.
    handle_input(&mut velocity, &player, 1, false, SUBUNITS);
    assert_eq!(velocity.value.x, VELOCITY);
    assert_eq!(velocity.value.y, FALL_VELOCITY);
    // A quarter-second tick still caps the walk speed, but gravity has
    // only built up a quarter of its full-second pull.
    let mut slow = Velocity::default();
    handle_input(&mut slow, &player, 1, false, SUBUNITS / 4);
    assert_eq!(slow.value.x, VELOCITY);
    assert_eq!(slow.value.y, -250 * SUBUNITS);
}

#[test]
fn jump_needs_grounding() {
    let mut airborne = Velocity::default();
    let mut player = Player::default();
    handle_input(&mut airborne, &player, 0, true, 0);
    assert_ne!(airborne.value.y, JUMP_VELOCITY);
    player.grounded = true;
    let mut standing = Velocity::default();
    handle_input(&mut standing, &player, 0, true, 0);
    assert_eq!(standing.value.y, JUMP_VELOCITY);
}

#[test]
fn landing_snaps_to_the_surface_and_zeroes_vertical_speed() {
    let collider = PlayerCollider::new().collider();
    let mut velocity = Velocity::new(Vec2i::new(3, -5 * SUBUNITS));
    let mut position = Vec2i::new(0, 0);
    let floor_box = Box2 { min: Vec2i::new(-8, -20), max: Vec2i::new(8, -6) };
    let events = vec![CollisionEvent { entity: 7, direction: Cardinal::South, solid: floor_box }];
    handle_collision(7, &collider, &mut velocity, &mut position, &events);
    // Snapped to the floor's top face at the south probe's standoff.
    assert_eq!(position, Vec2i::new(0, 2));
    assert_eq!(velocity.value, Vec2i::new(3, 0));
    assert_eq!(velocity.remainder.y, 0);
}

#[test]
fn walking_into_a_wall_snaps_horizontally() {
    let collider = PlayerCollider::new().collider();
    let mut velocity = Velocity::new(Vec2i::new(5 * SUBUNITS, 0));
    let mut position = Vec2i::new(0, 0);
    let wall_box = Box2 { min: Vec2i::new(3, -8), max: Vec2i::new(9, 8) };
    let events = vec![CollisionEvent { entity: 2, direction: Cardinal::East, solid: wall_box }];
    handle_collision(2, &collider, &mut velocity, &mut position, &events);
    // Snapped to the wall's west face at the east probes' standoff.
    assert_eq!(position, Vec2i::new(-1, 0));
    assert_eq!(velocity.value, Vec2i::new(0, 0));
}

#[test]
fn events_of_other_actors_are_ignored() {
    let collider = PlayerCollider::new().collider();
    let mut velocity = Velocity::new(Vec2i::new(3, -5));
    let mut position = Vec2i::new(0, 0);
    let floor_box = Box2 { min: Vec2i::new(-8, -20), max: Vec2i::new(8, -6) };
    let events = vec![CollisionEvent { entity: 8, direction: Cardinal::South, solid: floor_box }];
    handle_collision(7, &collider, &mut velocity, &mut position, &events);
    assert_eq!(position, Vec2i::new(0, 0));
    assert_eq!(velocity.value, Vec2i::new(3, -5));
}

#[test]
fn grounded_on_a_solid_below() {
    let collider = Collider::aabb(Vec2i::new(1, 1));
    let mut player = Player::default();
    let floor = Solid::new(Vec2i::new(0, -7), Vec2i::new(4, 2));
    update_player_grounded(&mut player, &collider, Vec2i::new(0, -4), &vec![floor]);
    assert!(player.grounded);
    // Far from the floor, grounding is lost again.
    update_player_grounded(&mut player, &collider, Vec2i::new(0, 10), &vec![floor]);
    assert!(!player.grounded);
}

#[test]
fn corner_touch_does_not_ground() {
    // A tall actor whose box's max-X exactly equals the solid's min-X:
    // the side still classifies South, but the contact is a bare corner.
    let collider = Collider::aabb(Vec2i::new(1, 5));
    let mut player = Player::default();
    let corner_solid = Solid::new(Vec2i::new(5, -7), Vec2i::new(4, 2));
    update_player_grounded(&mut player, &collider, Vec2i::new(0, 0), &vec![corner_solid]);
    assert!(!player.grounded);
    // One unit to the left the overlap is real and grounding holds.
    let shifted = Solid::new(Vec2i::new(4, -7), Vec2i::new(4, 2));
    update_player_grounded(&mut player, &collider, Vec2i::new(0, 0), &vec![shifted]);
    assert!(player.grounded);
}

#[test]
fn player_probes_classify_in_declaration_order() {
    let pc = PlayerCollider::new();
    // A wall to the east: the shoulder probe reports East before the hip
    // probe gets a say.
    let wall = Box2 { min: Vec2i::new(3, -8), max: Vec2i::new(9, 8) };
    assert_eq!(pc.get_collision_side(Vec2i::new(0, 0), &wall), Some(Cardinal::East));
    // A floor far below is only in reach of the south probe.
    let floor = Box2 { min: Vec2i::new(-8, -9), max: Vec2i::new(8, -6) };
    assert_eq!(pc.get_collision_side(Vec2i::new(0, 0), &floor), Some(Cardinal::South));
    assert!(pc.collides(Vec2i::new(0, 0), &wall));
    // The shortened south probe stops one unit above this box.
    let deep = Box2 { min: Vec2i::new(-8, -9), max: Vec2i::new(8, -8) };
    assert!(!pc.collides(Vec2i::new(0, 0), &deep));
    assert_eq!(pc.get_collision_side(Vec2i::new(0, 0), &deep), Some(Cardinal::South));
}

#[test]
fn actor_grounding_matches_player_grounding() {
    let collider = Collider::aabb(Vec2i::new(1, 1));
    let mut actor = Actor::new();
    assert!(!actor.grounded);
    let floor = Solid::new(Vec2i::new(0, -7), Vec2i::new(4, 2));
    actor.update_grounded(&collider, Vec2i::new(0, -4), &vec![floor]);
    assert!(actor.grounded);
    actor.update_grounded(&collider, Vec2i::new(0, 10), &vec![floor]);
    assert!(!actor.grounded);
}

#[test]
fn player_silhouette_bounds() {
    let collider = PlayerCollider::new().collider();
    let b = collider.bounds(Vec2i::new(10, 20));
    assert_eq!(b, Box2 { min: Vec2i::new(6, 12), max: Vec2i::new(14, 28) });
}
