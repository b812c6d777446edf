use platformer_physics::aabb::{Aabb, Box2};
use platformer_physics::cardinal::Cardinal;
use platformer_physics::collider::{Collider, SharedShape, TypedShape};
use platformer_physics::custom_collider::{BasicShape, CustomCollider, SubShape};
use platformer_physics::ray_cast::{RayCast, ShapeError};
use platformer_physics::separation_ray::SeparationRay;
use platformer_physics::solid::Solid;
use platformer_physics::units::Vec2i;

fn bx(min_x: i64, min_y: i64, max_x: i64, max_y: i64) -> Box2 {
    Box2 { min: Vec2i::new(min_x, min_y), max: Vec2i::new(max_x, max_y) }
}

#[test]
fn cardinal_unit_vectors() {
    assert_eq!(Cardinal::East.as_vec2(), Vec2i::new(1, 0));
    assert_eq!(Cardinal::West.as_vec2(), Vec2i::new(-1, 0));
    assert_eq!(Cardinal::North.as_vec2(), Vec2i::new(0, 1));
    assert_eq!(Cardinal::South.as_vec2(), Vec2i::new(0, -1));
    assert_eq!(Cardinal::East.x(), 1);
    assert_eq!(Cardinal::East.y(), 0);
    assert_eq!(Cardinal::South.y(), -1);
}

#[test]
#[allow(non_snake_case)]
fn cardinal_axis_classification() {
    assert!(Cardinal::East.isHorizontal());
    assert!(Cardinal::West.isHorizontal());
    assert!(!Cardinal::North.isHorizontal());
    assert!(Cardinal::North.isVertical());
    assert!(Cardinal::South.isVertical());
    assert!(!Cardinal::East.isVertical());
}

#[test]
fn cardinal_from_vec2_rejects_zero() {
    assert!(Cardinal::from_vec2(Vec2i::new(0, 0)).is_err());
    assert_eq!(Cardinal::from_vec2(Vec2i::new(2, 0)), Ok(Cardinal::East));
    assert_eq!(Cardinal::from_vec2(Vec2i::new(-1, 0)), Ok(Cardinal::West));
    assert_eq!(Cardinal::from_vec2(Vec2i::new(0, 3)), Ok(Cardinal::North));
    assert_eq!(Cardinal::from_vec2(Vec2i::new(0, -3)), Ok(Cardinal::South));
    // A nonzero horizontal component wins over the vertical one.
    assert_eq!(Cardinal::from_vec2(Vec2i::new(-3, 7)), Ok(Cardinal::West));
}

#[test]
fn aabb_touching_edge_is_not_a_collision() {
    let a = Aabb::new(Vec2i::new(1, 1));
    // The actor's box [-1,1]x[-1,1] only touches this box's left edge.
    let target = bx(1, -1, 3, 1);
    assert!(!a.collides(Vec2i::new(0, 0), &target));
    // One unit of overlap collides.
    let target2 = bx(2, -1, 4, 1);
    assert!(a.collides(Vec2i::new(2, 0), &target2));
    assert!(!a.collides(Vec2i::new(0, 0), &target2));
}

#[test]
fn aabb_side_east_when_horizontal_offset_dominates() {
    // Offset from position to the box's closest point is (5, -1): East.
    let a = Aabb::new(Vec2i::new(6, 6));
    let target = bx(5, -3, 9, -1);
    assert_eq!(a.get_collision_side(Vec2i::new(0, 0), &target), Some(Cardinal::East));
}

#[test]
fn aabb_side_north_when_vertical_offset_dominates() {
    // Offset from position to the box's closest point is (-1, 5): North.
    let a = Aabb::new(Vec2i::new(6, 6));
    let target = bx(-3, 5, -1, 9);
    assert_eq!(a.get_collision_side(Vec2i::new(0, 0), &target), Some(Cardinal::North));
}

#[test]
fn aabb_side_none_without_contact() {
    let a = Aabb::new(Vec2i::new(1, 1));
    let target = bx(10, 10, 12, 12);
    assert_eq!(a.get_collision_side(Vec2i::new(0, 0), &target), None);
}

#[test]
fn ray_construction_rejects_short_lengths() {
    assert_eq!(RayCast::new(Cardinal::East, 0), Err(ShapeError::InvalidRayLength));
    assert_eq!(RayCast::new(Cardinal::East, -5), Err(ShapeError::InvalidRayLength));
    let rc = RayCast::new(Cardinal::East, 3).unwrap();
    assert_eq!(rc.direction, Cardinal::East);
    assert_eq!(rc.length, 3);
}

#[test]
fn ray_overlap_is_shortened_but_side_is_not() {
    let rc = RayCast::new(Cardinal::East, 3).unwrap();
    // The shortened probe (length 2) stops one unit short of this box...
    let target = bx(3, -1, 4, 1);
    assert!(!rc.collides(Vec2i::new(0, 0), &target));
    // ...while the full-length probe already reports the side.
    assert_eq!(rc.get_collision_side(Vec2i::new(0, 0), &target), Some(Cardinal::East));
    // One unit closer, the shortened probe reaches the box.
    let near = bx(2, -1, 4, 1);
    assert!(rc.collides(Vec2i::new(0, 0), &near));
}

#[test]
fn ray_side_is_its_own_direction() {
    let rc = RayCast::new(Cardinal::South, 4).unwrap();
    let below = bx(-2, -6, 2, -2);
    assert_eq!(rc.get_collision_side(Vec2i::new(0, 0), &below), Some(Cardinal::South));
    let above = bx(-2, 2, 2, 6);
    assert_eq!(rc.get_collision_side(Vec2i::new(0, 0), &above), None);
}

fn ray_part(direction: Cardinal, length: i64, ox: i64, oy: i64) -> SubShape {
    SubShape {
        shape: BasicShape::Ray(RayCast { direction, length }),
        offset: Vec2i::new(ox, oy),
    }
}

#[test]
fn custom_side_first_member_wins() {
    let east_first = CustomCollider::new(vec![
        ray_part(Cardinal::East, 4, 0, 0),
        ray_part(Cardinal::North, 4, 0, 0),
    ]);
    let north_first = CustomCollider::new(vec![
        ray_part(Cardinal::North, 4, 0, 0),
        ray_part(Cardinal::East, 4, 0, 0),
    ]);
    // Both probes touch this box; declaration order decides the side.
    let target = bx(0, 0, 4, 4);
    assert_eq!(east_first.get_collision_side(Vec2i::new(0, 0), &target), Some(Cardinal::East));
    assert_eq!(north_first.get_collision_side(Vec2i::new(0, 0), &target), Some(Cardinal::North));
}

#[test]
fn custom_collides_is_or_over_members() {
    let c = CustomCollider::new(vec![
        ray_part(Cardinal::East, 4, 0, 0),
        ray_part(Cardinal::West, 4, 0, 0),
    ]);
    // Only the west probe (shortened to 3) reaches this box.
    let west_box = bx(-5, -1, -3, 1);
    assert!(c.collides(Vec2i::new(0, 0), &west_box));
    // Neither probe reaches a box far north.
    let north_box = bx(-1, 5, 1, 7);
    assert!(!c.collides(Vec2i::new(0, 0), &north_box));
}

#[test]
fn shared_geometry_independence() {
    // Two colliders from one shared handle...
    let shared = SharedShape::aabb(Vec2i::new(2, 3));
    let from_handle_a = Collider::new(shared.clone());
    let from_handle_b = Collider::new(shared);
    // ...and two independently constructed with the same geometry.
    let fresh_a = Collider::aabb(Vec2i::new(2, 3));
    let fresh_b = Collider::aabb(Vec2i::new(2, 3));
    let target = bx(0, 0, 4, 4);
    for pos in [Vec2i::new(1, 1), Vec2i::new(10, 10), Vec2i::new(-3, 2)] {
        assert_eq!(from_handle_a.collides(pos, &target), fresh_a.collides(pos, &target));
        assert_eq!(from_handle_b.collides(pos, &target), fresh_b.collides(pos, &target));
        assert_eq!(
            from_handle_a.get_collision_side(pos, &target),
            fresh_a.get_collision_side(pos, &target)
        );
        assert_eq!(
            from_handle_b.get_collision_side(pos, &target),
            fresh_b.get_collision_side(pos, &target)
        );
    }
}

#[test]
fn shared_ray_construction_errors_propagate() {
    assert!(SharedShape::ray_cast(Cardinal::North, 0).is_err());
    assert!(Collider::ray_cast(Cardinal::North, -1).is_err());
    let c = Collider::ray_cast(Cardinal::North, 2).unwrap();
    let above = bx(-1, 2, 1, 4);
    assert_eq!(c.get_collision_side(Vec2i::new(0, 0), &above), Some(Cardinal::North));
}

#[test]
fn collider_default_is_unit_aabb() {
    let c = Collider::default();
    let target = bx(0, -1, 2, 1);
    // The default one-unit box overlaps a box one unit to the east...
    assert!(c.collides(Vec2i::new(1, 0), &target));
    // ...but only touches it from two units away.
    assert!(!c.collides(Vec2i::new(-1, 0), &target));
}

#[test]
fn typed_shape_bounds() {
    let a = Aabb::new(Vec2i::new(2, 3)).as_typed_shape();
    assert_eq!(a.bounds(Vec2i::new(10, 20)), bx(8, 17, 12, 23));
    let r = RayCast::new(Cardinal::West, 5).unwrap().as_typed_shape();
    assert_eq!(r.bounds(Vec2i::new(0, 0)), bx(-5, 0, 0, 0));
}

#[test]
fn composite_round_trips_through_the_union() {
    let c = CustomCollider::new(vec![ray_part(Cardinal::East, 4, 0, 2)]);
    let shape = c.as_typed_shape();
    let target = bx(2, 1, 6, 3);
    match &shape {
        TypedShape::Custom(inner) => {
            assert_eq!(
                inner.get_collision_side(Vec2i::new(0, 0), &target),
                Some(Cardinal::East)
            );
        }
        _ => panic!("expected the composite variant"),
    }
}

#[test]
fn separation_ray_endpoint_must_be_strictly_inside() {
    assert_eq!(SeparationRay::new(Cardinal::North, -2), Err(ShapeError::InvalidRayLength));
    let sr = SeparationRay::new(Cardinal::South, 5).unwrap();
    // Endpoint (0,-5) strictly inside this solid's box [-3,3]x[-10,-4].
    let inside = Solid::new(Vec2i::new(0, -7), Vec2i::new(3, 3));
    assert!(sr.collides(Vec2i::new(0, 0), &inside));
    // Endpoint exactly on the top edge of [-3,3]x[-11,-5]: not inside.
    let grazing = Solid::new(Vec2i::new(0, -8), Vec2i::new(3, 3));
    assert!(!sr.collides(Vec2i::new(0, 0), &grazing));
}
