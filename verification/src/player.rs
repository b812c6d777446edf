//! The player: a six-probe collider silhouette, the velocity control
//! rules, the collision response, and the grounding detector.

use vstd::prelude::*;

use crate::cardinal::{spec_unit_vec, Cardinal};
use crate::aabb::{box_ok, Box2};
use crate::collider::{shape_in_bounds, spec_shape_side, Collider, CollisionEvent, TypedShape};
use crate::custom_collider::{
    custom_in_bounds, spec_custom_side_from, spec_parts_collides, sub_in_bounds, BasicShape,
    CustomCollider, SubShape,
};
use crate::ray_cast::RayCast;
use crate::solid::{solids_in_bounds, Solid};
use crate::units::{spec_abs, trunc_div, v2add, v2in, SpecVec2, Vec2i};
use crate::velocity::{velocity_in_bounds, Velocity};
use crate::{GEOM_LIMIT, POS_LIMIT, SUBUNITS, VEL_LIMIT};

verus! {

/// Default walking speed, in subunits per second.
pub const VELOCITY: i64 = 150 * 256;

/// Default horizontal acceleration, in subunits per second per second.
pub const ACC: i64 = 1000 * 256;

/// Default gravity, in subunits per second per second.
pub const GRAVITY: i64 = 1000 * 256;

/// Default terminal fall speed, in subunits per second.
pub const FALL_VELOCITY: i64 = -400 * 256;

/// Default jump impulse, in subunits per second.
pub const JUMP_VELOCITY: i64 = 250 * 256;

/// The player's collision silhouette: six ray probes — one long probe up
/// and down, and a short probe east and west at each shoulder and hip.
#[derive(Clone, Copy, Debug, PartialEq, Eq, Structural)]
pub struct PlayerCollider {
    pub n: RayCast,
    pub ne: RayCast,
    pub se: RayCast,
    pub s: RayCast,
    pub sw: RayCast,
    pub nw: RayCast,
}

/// The silhouette's probes as composite members in their fixed
/// declaration order, the shoulder and hip probes at their vertical
/// offsets.
pub open spec fn spec_player_parts(pc: PlayerCollider) -> Seq<SubShape> {
    seq![
        SubShape { shape: BasicShape::Ray(pc.n), offset: Vec2i { x: 0, y: 0 } },
        SubShape { shape: BasicShape::Ray(pc.ne), offset: Vec2i { x: 0, y: 4 } },
        SubShape { shape: BasicShape::Ray(pc.se), offset: Vec2i { x: 0, y: -4i64 } },
        SubShape { shape: BasicShape::Ray(pc.s), offset: Vec2i { x: 0, y: 0 } },
        SubShape { shape: BasicShape::Ray(pc.sw), offset: Vec2i { x: 0, y: -4i64 } },
        SubShape { shape: BasicShape::Ray(pc.nw), offset: Vec2i { x: 0, y: 4 } },
    ]
}

/// Every probe of the silhouette has a valid, in-bound length.
pub open spec fn player_collider_in_bounds(pc: PlayerCollider) -> bool {
    &&& 1 <= pc.n.length <= GEOM_LIMIT
    &&& 1 <= pc.ne.length <= GEOM_LIMIT
    &&& 1 <= pc.se.length <= GEOM_LIMIT
    &&& 1 <= pc.s.length <= GEOM_LIMIT
    &&& 1 <= pc.sw.length <= GEOM_LIMIT
    &&& 1 <= pc.nw.length <= GEOM_LIMIT
}

impl PlayerCollider {
    /// The standard silhouette: eight-unit probes up and down, four-unit
    /// probes east and west at the shoulders and hips.
    pub fn new() -> (r: PlayerCollider)
        ensures
            r == (PlayerCollider {
                n: RayCast { direction: Cardinal::North, length: 8 },
                ne: RayCast { direction: Cardinal::East, length: 4 },
                se: RayCast { direction: Cardinal::East, length: 4 },
                s: RayCast { direction: Cardinal::South, length: 8 },
                sw: RayCast { direction: Cardinal::West, length: 4 },
                nw: RayCast { direction: Cardinal::West, length: 4 },
            }),
    {
        PlayerCollider {
            n: RayCast { direction: Cardinal::North, length: 8 },
            ne: RayCast { direction: Cardinal::East, length: 4 },
            se: RayCast { direction: Cardinal::East, length: 4 },
            s: RayCast { direction: Cardinal::South, length: 8 },
            sw: RayCast { direction: Cardinal::West, length: 4 },
            nw: RayCast { direction: Cardinal::West, length: 4 },
        }
    }

    /// The six probes as composite members, in declaration order.
    pub fn parts(&self) -> (r: Vec<SubShape>)
        ensures
            r@ == spec_player_parts(*self),
    {
        let mut parts: Vec<SubShape> = Vec::new();
        parts.push(SubShape { shape: BasicShape::Ray(self.n), offset: Vec2i { x: 0, y: 0 } });
        parts.push(SubShape { shape: BasicShape::Ray(self.ne), offset: Vec2i { x: 0, y: 4 } });
        parts.push(SubShape { shape: BasicShape::Ray(self.se), offset: Vec2i { x: 0, y: -4 } });
        parts.push(SubShape { shape: BasicShape::Ray(self.s), offset: Vec2i { x: 0, y: 0 } });
        parts.push(SubShape { shape: BasicShape::Ray(self.sw), offset: Vec2i { x: 0, y: -4 } });
        parts.push(SubShape { shape: BasicShape::Ray(self.nw), offset: Vec2i { x: 0, y: 4 } });
        proof {
            assert(parts@ =~= spec_player_parts(*self));
        }
        parts
    }

    /// The silhouette as a collider: a composite of the six probes.
    pub fn collider(&self) -> (r: Collider)
        requires
            player_collider_in_bounds(*self),
        ensures
            r.spec_shape() matches TypedShape::Custom(c) && c.parts@ == spec_player_parts(*self),
    {
        Collider::custom(self.parts())
    }

    /// Overlap test of the silhouette: true if any probe, shortened by
    /// one unit and cast from its declared offset, touches `aabb`.
    pub fn collides(&self, position: Vec2i, aabb: &Box2) -> (r: bool)
        requires
            player_collider_in_bounds(*self),
            v2in(position@, POS_LIMIT as int),
            box_ok(aabb@),
        ensures
            r == spec_parts_collides(spec_player_parts(*self), position@, aabb@),
    {
        let composite = CustomCollider::new(self.parts());
        proof {
            assert(custom_in_bounds(composite)) by {
                assert forall|i: int|
                    0 <= i < composite.parts@.len() implies sub_in_bounds(
                    #[trigger] composite.parts@[i],
                ) by {
                    assert(composite.parts@ == spec_player_parts(*self));
                }
            }
        }
        composite.collides(position, aabb)
    }

    /// Side classification of the silhouette: the first probe (in
    /// declaration order) whose full length touches `aabb` commits the
    /// collision to its own direction.
    pub fn get_collision_side(&self, position: Vec2i, aabb: &Box2) -> (r: Option<Cardinal>)
        requires
            player_collider_in_bounds(*self),
            v2in(position@, POS_LIMIT as int),
            box_ok(aabb@),
        ensures
            r == spec_custom_side_from(spec_player_parts(*self), 0, position@, aabb@),
    {
        let composite = CustomCollider::new(self.parts());
        proof {
            assert(custom_in_bounds(composite)) by {
                assert forall|i: int|
                    0 <= i < composite.parts@.len() implies sub_in_bounds(
                    #[trigger] composite.parts@[i],
                ) by {
                    assert(composite.parts@ == spec_player_parts(*self));
                }
            }
        }
        composite.get_collision_side(position, aabb)
    }
}

/// The player's tuning parameters and grounded state. Speeds are in
/// subunits per second, accelerations in subunits per second per second.
#[derive(Debug, Clone, Copy, PartialEq, Eq, Structural)]
pub struct Player {
    pub max_speed: i64,
    pub acceleration: i64,
    pub gravity: i64,
    pub max_fall_speed: i64,
    pub jump_speed: i64,
    pub grounded: bool,
}

/// The player's tuning parameters are within the velocity bound, with
/// nonnegative acceleration and gravity.
pub open spec fn player_in_limits(p: Player) -> bool {
    &&& spec_abs(p.max_speed as int) <= VEL_LIMIT
    &&& 0 <= p.acceleration <= VEL_LIMIT
    &&& 0 <= p.gravity <= VEL_LIMIT
    &&& spec_abs(p.max_fall_speed as int) <= VEL_LIMIT
    &&& spec_abs(p.jump_speed as int) <= VEL_LIMIT
}

impl Default for Player {
    /// The standard tuning, not yet grounded.
    fn default() -> (r: Player)
        ensures
            r == (Player {
                max_speed: VELOCITY,
                acceleration: ACC,
                gravity: GRAVITY,
                max_fall_speed: FALL_VELOCITY,
                jump_speed: JUMP_VELOCITY,
                grounded: false,
            }),
    {
        Player {
            max_speed: VELOCITY,
            acceleration: ACC,
            gravity: GRAVITY,
            max_fall_speed: FALL_VELOCITY,
            jump_speed: JUMP_VELOCITY,
            grounded: false,
        }
    }
}

/// The input axis from a positive and a negative key: 1, -1, or 0 when
/// both or neither is held.
pub fn get_input_axis(pos: bool, neg: bool) -> (r: i64)
    ensures
        r == (if pos {
            1int
        } else {
            0int
        }) - (if neg {
            1int
        } else {
            0int
        }),
{
    let p: i64 = if pos {
        1
    } else {
        0
    };
    let n: i64 = if neg {
        1
    } else {
        0
    };
    p - n
}

/// Move `value` toward `target` by at most `delta`, never overshooting.
pub open spec fn spec_approach(value: int, target: int, delta: int) -> int {
    if value > target {
        if value - delta > target {
            value - delta
        } else {
            target
        }
    } else {
        if value + delta < target {
            value + delta
        } else {
            target
        }
    }
}

/// Move `value` toward `target` by at most `delta`.
pub fn approach(value: i64, target: i64, delta: i64) -> (r: i64)
    requires
        spec_abs(value as int) <= VEL_LIMIT,
        spec_abs(target as int) <= VEL_LIMIT,
        spec_abs(delta as int) <= VEL_LIMIT,
    ensures
        r == spec_approach(value as int, target as int, delta as int),
{
    if value > target {
        let lowered = value - delta;
        if lowered > target {
            lowered
        } else {
            target
        }
    } else {
        let raised = value + delta;
        if raised < target {
            raised
        } else {
            target
        }
    }
}

/// The per-tick velocity control rule: the horizontal speed approaches
/// the held direction times the maximum speed under the acceleration, the
/// vertical speed approaches the terminal fall speed under gravity, and a
/// jump press while grounded replaces the vertical speed with the jump
/// impulse. Only the velocity value changes; the carry is untouched.
pub fn handle_input(
    velocity: &mut Velocity,
    player: &Player,
    x_axis: i64,
    jump_pressed: bool,
    tick_duration: i64,
)
    requires
        velocity_in_bounds(*old(velocity)),
        player_in_limits(*player),
        -1 <= x_axis <= 1,
        0 <= tick_duration <= SUBUNITS,
    ensures
        final(velocity).value@.x == spec_approach(
            old(velocity).value@.x,
            player.max_speed * x_axis,
            trunc_div(player.acceleration * tick_duration, SUBUNITS as int),
        ),
        final(velocity).value@.y == (if player.grounded && jump_pressed {
            player.jump_speed as int
        } else {
            spec_approach(
                old(velocity).value@.y,
                player.max_fall_speed as int,
                trunc_div(player.gravity * tick_duration, SUBUNITS as int),
            )
        }),
        final(velocity).remainder == old(velocity).remainder,
        velocity_in_bounds(*final(velocity)),
{
    proof {
        assert(-(VEL_LIMIT as int) <= player.max_speed * x_axis <= VEL_LIMIT as int)
            by (nonlinear_arith)
            requires
                -(VEL_LIMIT as int) <= player.max_speed <= VEL_LIMIT as int,
                -1 <= x_axis <= 1,
        ;
        assert(-256_000_000_000int <= player.acceleration * tick_duration <= 256_000_000_000int)
            by (nonlinear_arith)
            requires
                -(VEL_LIMIT as int) <= player.acceleration <= VEL_LIMIT as int,
                0 <= tick_duration <= SUBUNITS as int,
        ;
        assert(-256_000_000_000int <= player.gravity * tick_duration <= 256_000_000_000int)
            by (nonlinear_arith)
            requires
                -(VEL_LIMIT as int) <= player.gravity <= VEL_LIMIT as int,
                0 <= tick_duration <= SUBUNITS as int,
        ;
        crate::units::lemma_trunc_div_mag(
            player.acceleration * tick_duration,
            256_000_000_000int,
            SUBUNITS as int,
        );
        crate::units::lemma_trunc_div_mag(
            player.gravity * tick_duration,
            256_000_000_000int,
            SUBUNITS as int,
        );
        assert(256_000_000_000int / (SUBUNITS as int) == 1_000_000_000int);
        assert(player.acceleration * tick_duration >= 0) by (nonlinear_arith)
            requires
                player.acceleration >= 0,
                tick_duration >= 0,
        ;
        assert(player.gravity * tick_duration >= 0) by (nonlinear_arith)
            requires
                player.gravity >= 0,
                tick_duration >= 0,
        ;
        crate::units::lemma_trunc_div_facts(player.acceleration * tick_duration, SUBUNITS as int);
        crate::units::lemma_trunc_div_facts(player.gravity * tick_duration, SUBUNITS as int);
    }
    let target_x: i64 = player.max_speed * x_axis;
    let acc_step: i64 = player.acceleration * tick_duration / SUBUNITS;
    let gravity_step: i64 = player.gravity * tick_duration / SUBUNITS;
    let new_x = approach(velocity.value.x, target_x, acc_step);
    let new_y = approach(velocity.value.y, player.max_fall_speed, gravity_step);
    velocity.value.x = new_x;
    velocity.value.y = new_y;
    if player.grounded && jump_pressed {
        velocity.value.y = player.jump_speed;
    }
}

/// The side a collision event resolves to: the collider re-classified at
/// the position one unit into the event's direction, against the solid
/// box the event carries.
pub open spec fn spec_event_side(
    shape: TypedShape,
    pos: SpecVec2,
    ev: CollisionEvent,
) -> Option<Cardinal> {
    spec_shape_side(shape, v2add(pos, spec_unit_vec(ev.direction)), ev.solid@)
}

/// The first event from index `i` on that belongs to the given actor and
/// classifies to a side; events are handled one per call.
pub open spec fn spec_first_handled(
    shape: TypedShape,
    pos: SpecVec2,
    entity: u64,
    events: Seq<CollisionEvent>,
    i: int,
) -> Option<int>
    decreases events.len() - i,
{
    if i < 0 || i >= events.len() {
        None
    } else if events[i].entity == entity && spec_event_side(shape, pos, events[i]) is Some {
        Some(i)
    } else {
        spec_first_handled(shape, pos, entity, events, i + 1)
    }
}

/// Every event's solid box has in-bound corners.
pub open spec fn events_ok(events: Seq<CollisionEvent>) -> bool {
    forall|i: int| 0 <= i < events.len() ==> crate::aabb::box_ok((#[trigger] events[i]).solid@)
}

/// The collision response: take the first event of this tick that belongs
/// to the actor and still classifies to a side, snap the position to the
/// matched face at the probe's standoff distance — eight units
/// vertically, four horizontally, the probe lengths of the standard
/// silhouette — and zero the hit axis's velocity and carry. At most one
/// event is handled per call; an event that no longer classifies is
/// skipped.
pub fn handle_collision(
    entity: u64,
    collider: &Collider,
    velocity: &mut Velocity,
    position: &mut Vec2i,
    events: &Vec<CollisionEvent>,
)
    requires
        shape_in_bounds(collider.spec_shape()),
        v2in(old(position)@, POS_LIMIT - 1),
        events_ok(events@),
    ensures
        ({
            let found = spec_first_handled(
                collider.spec_shape(),
                old(position)@,
                entity,
                events@,
                0,
            );
            match found {
                None => *final(position) == *old(position) && *final(velocity) == *old(velocity),
                Some(i) => {
                    let ev = events@[i];
                    match spec_event_side(collider.spec_shape(), old(position)@, ev) {
                        Some(Cardinal::North) => final(position)@ == (SpecVec2 {
                            x: old(position)@.x,
                            y: ev.solid@.min.y - 8,
                        }) && final(velocity).value@ == (SpecVec2 {
                            x: old(velocity).value@.x,
                            y: 0,
                        }) && final(velocity).remainder@ == (SpecVec2 {
                            x: old(velocity).remainder@.x,
                            y: 0,
                        }),
                        Some(Cardinal::East) => final(position)@ == (SpecVec2 {
                            x: ev.solid@.min.x - 4,
                            y: old(position)@.y,
                        }) && final(velocity).value@ == (SpecVec2 {
                            x: 0,
                            y: old(velocity).value@.y,
                        }) && final(velocity).remainder@ == (SpecVec2 {
                            x: 0,
                            y: old(velocity).remainder@.y,
                        }),
                        Some(Cardinal::South) => final(position)@ == (SpecVec2 {
                            x: old(position)@.x,
                            y: ev.solid@.max.y + 8,
                        }) && final(velocity).value@ == (SpecVec2 {
                            x: old(velocity).value@.x,
                            y: 0,
                        }) && final(velocity).remainder@ == (SpecVec2 {
                            x: old(velocity).remainder@.x,
                            y: 0,
                        }),
                        Some(Cardinal::West) => final(position)@ == (SpecVec2 {
                            x: ev.solid@.max.x + 4,
                            y: old(position)@.y,
                        }) && final(velocity).value@ == (SpecVec2 {
                            x: 0,
                            y: old(velocity).value@.y,
                        }) && final(velocity).remainder@ == (SpecVec2 {
                            x: 0,
                            y: old(velocity).remainder@.y,
                        }),
                        None => false,
                    }
                },
            }
        }),
{
    let n = events.len();
    let mut i: usize = 0;
    while i < n
        invariant
            n == events@.len(),
            0 <= i <= n,
            shape_in_bounds(collider.spec_shape()),
            v2in(old(position)@, POS_LIMIT - 1),
            events_ok(events@),
            *position == *old(position),
            *velocity == *old(velocity),
            spec_first_handled(collider.spec_shape(), old(position)@, entity, events@, 0)
                == spec_first_handled(collider.spec_shape(), old(position)@, entity, events@, i as int),
        decreases n - i,
    {
        let ev = events[i];
        if ev.entity != entity {
            i = i + 1;
            continue;
        }
        let probe = Vec2i {
            x: position.x + ev.direction.x(),
            y: position.y + ev.direction.y(),
        };
        let side = collider.get_collision_side(probe, &ev.solid);
        match side {
            None => {
                i = i + 1;
            },
            Some(Cardinal::North) => {
                position.y = ev.solid.min.y - 8;
                velocity.reset_y();
                return ;
            },
            Some(Cardinal::East) => {
                position.x = ev.solid.min.x - 4;
                velocity.reset_x();
                return ;
            },
            Some(Cardinal::South) => {
                position.y = ev.solid.max.y + 8;
                velocity.reset_y();
                return ;
            },
            Some(Cardinal::West) => {
                position.x = ev.solid.max.x + 4;
                velocity.reset_x();
                return ;
            },
        }
    }
}

/// The grounding detector, run once per tick after movement: the player
/// is grounded exactly when some solid classifies to its bottom face at
/// the current position and the contact is not a bare corner touch.
pub fn update_player_grounded(
    player: &mut Player,
    collider: &Collider,
    position: Vec2i,
    solids: &Vec<Solid>,
)
    requires
        shape_in_bounds(collider.spec_shape()),
        v2in(position@, POS_LIMIT as int),
        solids_in_bounds(solids@),
    ensures
        *final(player) == (Player {
            grounded: crate::actor::spec_grounded(collider.spec_shape(), position@, solids@),
            ..*old(player)
        }),
{
    player.grounded = crate::actor::check_grounded(collider, position, solids);
}

} // verus!
