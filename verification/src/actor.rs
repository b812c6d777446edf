//! Actors and the movement integrator: per-tick fixed-point stepping with
//! a collision test before every committed unit of motion.

use vstd::prelude::*;

use crate::aabb::{Aabb, SpecBox};
use crate::collider::{
    shape_in_bounds, spec_shape_bounds, spec_shape_collides, spec_shape_side, Collider,
    CollisionEvent, TypedShape,
};
use crate::cardinal::{spec_unit_vec, Cardinal};
use crate::solid::{solids_in_bounds, spec_solid_box, Solid};
use crate::units::{
    lemma_trunc_div_facts, lemma_trunc_div_mag, lemma_trunc_step, spec_abs, spec_sign, trunc_div,
    trunc_rem, v2add, v2in, v2scale, SpecVec2, Vec2i,
};
use crate::velocity::{remainder_ok, velocity_in_bounds, Velocity};
use crate::{GEOM_LIMIT, POS_LIMIT, SUBUNITS, VEL_LIMIT};

verus! {

/// A movable body, resolved against the static solids each tick. Its
/// grounded flag is written only by the grounding detector.
#[derive(Debug, Clone, Copy, PartialEq, Eq, Structural)]
pub struct Actor {
    pub grounded: bool,
}

/// Whether any solid collides with the shape placed at `position`.
pub open spec fn spec_blocked(shape: TypedShape, position: SpecVec2, solids: Seq<Solid>) -> bool {
    exists|i: int|
        0 <= i < solids.len() && spec_shape_collides(
            shape,
            position,
            spec_solid_box(#[trigger] solids[i]),
        )
}

/// The lowest index at or after `i` of a solid colliding with the shape
/// at `position`: solids are enumerated in one fixed, stable order, so
/// the first colliding solid is reproducible.
pub open spec fn spec_first_blocker(
    shape: TypedShape,
    position: SpecVec2,
    solids: Seq<Solid>,
    i: int,
) -> Option<int>
    decreases solids.len() - i,
{
    if i < 0 || i >= solids.len() {
        None
    } else if spec_shape_collides(shape, position, spec_solid_box(solids[i])) {
        Some(i)
    } else {
        spec_first_blocker(shape, position, solids, i + 1)
    }
}

/// The unit-stepping walk along one axis: starting from `position`, take
/// up to `n` one-unit steps in direction `d`, testing every solid before
/// committing each step. Returns the number of committed steps and, if
/// the walk was stopped, the index of the first blocking solid at the
/// refused position.
pub open spec fn spec_axis_walk(
    shape: TypedShape,
    position: SpecVec2,
    d: SpecVec2,
    n: int,
    solids: Seq<Solid>,
) -> (int, Option<int>)
    decreases n,
{
    if n <= 0 {
        (0, None)
    } else {
        let next = v2add(position, d);
        match spec_first_blocker(shape, next, solids, 0) {
            Some(j) => (0, Some(j)),
            None => {
                let rest = spec_axis_walk(shape, next, d, n - 1, solids);
                (rest.0 + 1, rest.1)
            },
        }
    }
}

/// `d` is one of the four unit vectors.
pub open spec fn spec_unit_dir(d: SpecVec2) -> bool {
    d == (SpecVec2 { x: 1, y: 0 }) || d == (SpecVec2 { x: -1, y: 0 }) || d == (
    SpecVec2 { x: 0, y: 1 }) || d == (SpecVec2 { x: 0, y: -1 })
}

/// The first solid (in enumeration order) colliding with the collider's
/// shape at `position`, if any.
fn find_blocker(collider: &Collider, position: Vec2i, solids: &Vec<Solid>) -> (r: Option<usize>)
    requires
        shape_in_bounds(collider.spec_shape()),
        solids_in_bounds(solids@),
        v2in(position@, POS_LIMIT as int),
    ensures
        r is None ==> spec_first_blocker(collider.spec_shape(), position@, solids@, 0) is None,
        r matches Some(u) ==> spec_first_blocker(collider.spec_shape(), position@, solids@, 0)
            == Some(u as int) && u < solids@.len(),
{
    let n = solids.len();
    let mut i: usize = 0;
    while i < n
        invariant
            n == solids@.len(),
            0 <= i <= n,
            shape_in_bounds(collider.spec_shape()),
            solids_in_bounds(solids@),
            v2in(position@, POS_LIMIT as int),
            spec_first_blocker(collider.spec_shape(), position@, solids@, 0)
                == spec_first_blocker(collider.spec_shape(), position@, solids@, i as int),
        decreases n - i,
    {
        let solid_box = solids[i].box2();
        if collider.collides(position, &solid_box) {
            return Some(i);
        }
        i = i + 1;
    }
    None
}

/// Advance `position` by up to `n` one-unit steps in direction `d`,
/// testing every solid before committing each step; on a hit the step is
/// refused and the first blocking solid's index is returned.
fn move_axis(
    collider: &Collider,
    position: &mut Vec2i,
    d: Vec2i,
    n: u64,
    solids: &Vec<Solid>,
) -> (hit: Option<usize>)
    requires
        shape_in_bounds(collider.spec_shape()),
        solids_in_bounds(solids@),
        n == 0 || spec_unit_dir(d@),
        spec_abs(old(position)@.x) + n <= POS_LIMIT,
        spec_abs(old(position)@.y) + n <= POS_LIMIT,
    ensures
        ({
            let w = spec_axis_walk(collider.spec_shape(), old(position)@, d@, n as int, solids@);
            &&& 0 <= w.0 <= n
            &&& final(position)@ == v2add(old(position)@, v2scale(w.0, d@))
            &&& (hit is None ==> w.1 is None)
            &&& (hit matches Some(u) ==> w.1 == Some(u as int) && u < solids@.len())
        }),
{
    let ghost shape = collider.spec_shape();
    let ghost start = position@;
    let mut i: u64 = 0;
    while i < n
        invariant
            0 <= i <= n,
            start == old(position)@,
            shape_in_bounds(shape),
            shape == collider.spec_shape(),
            solids_in_bounds(solids@),
            n == 0 || spec_unit_dir(d@),
            spec_abs(start.x) + n <= POS_LIMIT,
            spec_abs(start.y) + n <= POS_LIMIT,
            position@ == v2add(start, v2scale(i as int, d@)),
            ({
                let w0 = spec_axis_walk(shape, start, d@, n as int, solids@);
                let wc = spec_axis_walk(shape, position@, d@, n - i, solids@);
                w0.0 == i + wc.0 && w0.1 == wc.1
            }),
        decreases n - i,
    {
        let next = Vec2i { x: position.x + d.x, y: position.y + d.y };
        assert(next@ == v2add(position@, d@));
        let hit = find_blocker(collider, next, solids);
        match hit {
            Some(j) => {
                proof {
                    let wc = spec_axis_walk(shape, position@, d@, n - i, solids@);
                    assert(n - i > 0);
                    assert(wc == (0int, spec_first_blocker(shape, next@, solids@, 0)));
                }
                return Some(j);
            },
            None => {
                proof {
                    let wc = spec_axis_walk(shape, position@, d@, n - i, solids@);
                    let wn = spec_axis_walk(shape, next@, d@, n - i - 1, solids@);
                    assert(n - i > 0);
                    assert(wc == (wn.0 + 1, wn.1));
                    assert((i + 1) as int * d@.x == (i as int) * d@.x + d@.x) by (nonlinear_arith);
                    assert((i + 1) as int * d@.y == (i as int) * d@.y + d@.y) by (nonlinear_arith);
                }
                *position = next;
                i = i + 1;
            },
        }
    }
    proof {
        let w0 = spec_axis_walk(shape, start, d@, n as int, solids@);
        let wc = spec_axis_walk(shape, position@, d@, 0, solids@);
        assert(wc == (0int, Option::<int>::None));
        assert(w0.0 == i as int && w0.1 is None);
    }
    None
}

/// Displacement of one axis for one tick, in subunits: the target speed
/// scaled by the tick duration, truncated toward zero.
pub open spec fn spec_delta(value: int, tick: int) -> int {
    trunc_div(value * tick, SUBUNITS as int)
}

/// Whole-unit steps one axis owes this tick, after adding the displacement
/// to the carry.
pub open spec fn spec_steps(rem: int, delta: int) -> int {
    trunc_div(rem + delta, SUBUNITS as int)
}

/// The carry one axis keeps for the next tick.
pub open spec fn spec_new_rem(rem: int, delta: int) -> int {
    trunc_rem(rem + delta, SUBUNITS as int)
}

/// Everything one integrator tick produces for one actor.
pub struct SpecTick {
    /// The actor's position after both axes are resolved.
    pub pos: SpecVec2,
    /// The remainder carried to the next tick.
    pub rem: SpecVec2,
    /// Index of the solid that stopped the horizontal pass, if any.
    pub hit_x: Option<int>,
    /// Index of the solid that stopped the vertical pass, if any.
    pub hit_y: Option<int>,
}

/// The per-tick movement model: accumulate the scaled velocity into the
/// remainder, split off whole-unit steps, then resolve the horizontal
/// axis completely before the vertical axis by unit-stepping walks.
pub open spec fn spec_tick(
    shape: TypedShape,
    value: SpecVec2,
    rem: SpecVec2,
    pos: SpecVec2,
    tick: int,
    solids: Seq<Solid>,
) -> SpecTick {
    let dx = spec_delta(value.x, tick);
    let dy = spec_delta(value.y, tick);
    let sx = spec_steps(rem.x, dx);
    let sy = spec_steps(rem.y, dy);
    let dirx = SpecVec2 { x: spec_sign(value.x), y: 0 };
    let diry = SpecVec2 { x: 0, y: spec_sign(value.y) };
    let wx = spec_axis_walk(shape, pos, dirx, spec_abs(sx), solids);
    let pos1 = v2add(pos, v2scale(wx.0, dirx));
    let wy = spec_axis_walk(shape, pos1, diry, spec_abs(sy), solids);
    let pos2 = v2add(pos1, v2scale(wy.0, diry));
    SpecTick {
        pos: pos2,
        rem: SpecVec2 { x: spec_new_rem(rem.x, dx), y: spec_new_rem(rem.y, dy) },
        hit_x: wx.1,
        hit_y: wy.1,
    }
}

/// How many collision events one tick emits: at most one per axis.
pub open spec fn spec_event_count(t: SpecTick) -> int {
    (if t.hit_x is Some {
        1int
    } else {
        0int
    }) + (if t.hit_y is Some {
        1int
    } else {
        0int
    })
}

/// One integrator tick for one actor, per the fixed-step stepping
/// algorithm: the scaled velocity accumulates into the remainder, whole
/// units are split off and walked one at a time — horizontal axis first —
/// with every solid tested before each step is committed. A refused step
/// stops that axis for the tick and emits one collision event carrying
/// the first blocking solid's box; remaining steps are discarded, and the
/// velocity value itself is never modified.
pub fn simulate_actor_movement(
    entity: u64,
    collider: &Collider,
    velocity: &mut Velocity,
    position: &mut Vec2i,
    tick_duration: i64,
    solids: &Vec<Solid>,
) -> (events: Vec<CollisionEvent>)
    requires
        shape_in_bounds(collider.spec_shape()),
        solids_in_bounds(solids@),
        velocity_in_bounds(*old(velocity)),
        remainder_ok(*old(velocity)),
        v2in(old(position)@, GEOM_LIMIT as int),
        0 <= tick_duration <= SUBUNITS,
    ensures
        ({
            let t = spec_tick(
                collider.spec_shape(),
                old(velocity).value@,
                old(velocity).remainder@,
                old(position)@,
                tick_duration as int,
                solids@,
            );
            &&& final(position)@ == t.pos
            &&& final(velocity).value == old(velocity).value
            &&& final(velocity).remainder@ == t.rem
            &&& remainder_ok(*final(velocity))
            &&& events@.len() == spec_event_count(t)
            &&& (t.hit_x matches Some(j) ==> 0 <= j < solids@.len() && events@[0].entity == entity
                && events@[0].direction == (if old(velocity).value@.x > 0 {
                    Cardinal::East
                } else {
                    Cardinal::West
                }) && events@[0].solid@ == spec_solid_box(solids@[j]))
            &&& (t.hit_y matches Some(j) ==> 0 <= j < solids@.len() && events@[events@.len()
                - 1].entity == entity && events@[events@.len() - 1].direction == (if old(
                velocity,
            ).value@.y > 0 {
                Cardinal::North
            } else {
                Cardinal::South
            }) && events@[events@.len() - 1].solid@ == spec_solid_box(solids@[j]))
        }),
{
    let ghost shape = collider.spec_shape();
    let ghost vel0 = *velocity;
    let ghost pos0 = position@;
    let ghost t = spec_tick(
        shape,
        vel0.value@,
        vel0.remainder@,
        pos0,
        tick_duration as int,
        solids@,
    );

    // Steps 1-3: delta, remainder accumulation, whole-step split (per axis).
    proof {
        assert((VEL_LIMIT as int) * (SUBUNITS as int) == 256_000_000_000int);
        assert(-256_000_000_000int <= vel0.value@.x * tick_duration <= 256_000_000_000int)
            by (nonlinear_arith)
            requires
                -(VEL_LIMIT as int) <= vel0.value@.x <= VEL_LIMIT as int,
                0 <= tick_duration <= SUBUNITS as int,
        ;
        assert(-256_000_000_000int <= vel0.value@.y * tick_duration <= 256_000_000_000int)
            by (nonlinear_arith)
            requires
                -(VEL_LIMIT as int) <= vel0.value@.y <= VEL_LIMIT as int,
                0 <= tick_duration <= SUBUNITS as int,
        ;
    }
    let prod_x: i64 = velocity.value.x * tick_duration;
    let prod_y: i64 = velocity.value.y * tick_duration;
    let delta_x: i64 = prod_x / SUBUNITS;
    let delta_y: i64 = prod_y / SUBUNITS;
    proof {
        lemma_trunc_div_mag(prod_x as int, 256_000_000_000int, SUBUNITS as int);
        lemma_trunc_div_mag(prod_y as int, 256_000_000_000int, SUBUNITS as int);
        assert(256_000_000_000int / (SUBUNITS as int) == 1_000_000_000int);
        assert(delta_x == spec_delta(vel0.value@.x, tick_duration as int));
        assert(delta_y == spec_delta(vel0.value@.y, tick_duration as int));
    }
    let total_x: i64 = velocity.remainder.x + delta_x;
    let total_y: i64 = velocity.remainder.y + delta_y;
    let steps_x: i64 = total_x / SUBUNITS;
    let steps_y: i64 = total_y / SUBUNITS;
    let rem_x: i64 = total_x % SUBUNITS;
    let rem_y: i64 = total_y % SUBUNITS;
    proof {
        lemma_trunc_div_mag(total_x as int, 1_000_000_256int, SUBUNITS as int);
        lemma_trunc_div_mag(total_y as int, 1_000_000_256int, SUBUNITS as int);
        assert(1_000_000_256int / (SUBUNITS as int) == 3_906_251int);
        lemma_trunc_div_facts(total_x as int, SUBUNITS as int);
        lemma_trunc_div_facts(total_y as int, SUBUNITS as int);
        assert(steps_x == spec_steps(vel0.remainder@.x, delta_x as int));
        assert(steps_y == spec_steps(vel0.remainder@.y, delta_y as int));
        assert(rem_x == spec_new_rem(vel0.remainder@.x, delta_x as int));
        assert(rem_y == spec_new_rem(vel0.remainder@.y, delta_y as int));
    }
    velocity.remainder = Vec2i { x: rem_x, y: rem_y };

    // Step 4: per-axis direction.
    let dir = velocity.get_direction();

    let mut events: Vec<CollisionEvent> = Vec::new();

    // Steps 5-6, horizontal axis first: walk the owed whole units.
    let nx: u64 = if steps_x >= 0 {
        steps_x as u64
    } else {
        (-steps_x) as u64
    };
    proof {
        if vel0.value@.x == 0 {
            assert(vel0.value@.x * tick_duration == 0) by (nonlinear_arith)
                requires
                    vel0.value@.x == 0,
            ;
            lemma_trunc_div_facts(0, SUBUNITS as int);
            assert(steps_x == 0);
        }
    }
    let dvx = Vec2i { x: dir.x, y: 0 };
    let hit_x = move_axis(collider, position, dvx, nx, solids);
    proof {
        let w = spec_axis_walk(shape, pos0, dvx@, nx as int, solids@);
        assert(spec_abs(w.0 * dvx@.x) <= w.0) by (nonlinear_arith)
            requires
                0 <= w.0,
                -1 <= dvx@.x <= 1,
        ;
        assert(spec_abs(w.0 * dvx@.y) <= w.0) by (nonlinear_arith)
            requires
                0 <= w.0,
                -1 <= dvx@.y <= 1,
        ;
    }
    if let Some(u) = hit_x {
        let solid_box = solids[u].box2();
        events.push(
            CollisionEvent {
                entity,
                direction: if dir.x > 0 {
                    Cardinal::East
                } else {
                    Cardinal::West
                },
                solid: solid_box,
            },
        );
    }

    // Step 6 again, vertical axis, from the horizontally resolved position.
    let ny: u64 = if steps_y >= 0 {
        steps_y as u64
    } else {
        (-steps_y) as u64
    };
    proof {
        if vel0.value@.y == 0 {
            assert(vel0.value@.y * tick_duration == 0) by (nonlinear_arith)
                requires
                    vel0.value@.y == 0,
            ;
            lemma_trunc_div_facts(0, SUBUNITS as int);
            assert(steps_y == 0);
        }
    }
    let hit_y = move_axis(collider, position, Vec2i { x: 0, y: dir.y }, ny, solids);
    if let Some(u) = hit_y {
        let solid_box = solids[u].box2();
        events.push(
            CollisionEvent {
                entity,
                direction: if dir.y > 0 {
                    Cardinal::North
                } else {
                    Cardinal::South
                },
                solid: solid_box,
            },
        );
    }

    proof {
        assert(position@ == t.pos);
        assert(events@.len() == spec_event_count(t));
    }
    events
}

/// The actor is standing on this solid: the side classification reports
/// its bottom face, and the contact is more than a single shared corner
/// coordinate — the actor box's max-X differs from the solid's min-X and
/// its min-X from the solid's max-X.
pub open spec fn spec_standing_on(shape: TypedShape, pos: SpecVec2, s: Solid) -> bool {
    let sb = spec_solid_box(s);
    let ab = spec_shape_bounds(shape, pos);
    &&& spec_shape_side(shape, pos, sb) == Some(Cardinal::South)
    &&& ab.max.x != sb.min.x
    &&& ab.min.x != sb.max.x
}

/// The actor rests on some solid, corner-only contacts excluded.
pub open spec fn spec_grounded(shape: TypedShape, pos: SpecVec2, solids: Seq<Solid>) -> bool {
    exists|i: int| 0 <= i < solids.len() && spec_standing_on(shape, pos, #[trigger] solids[i])
}

/// The grounding detector: whether some solid classifies to its bottom
/// face at the actor's current position, with bare corner touches
/// excluded from counting as standing support.
pub fn check_grounded(collider: &Collider, position: Vec2i, solids: &Vec<Solid>) -> (r: bool)
    requires
        shape_in_bounds(collider.spec_shape()),
        v2in(position@, POS_LIMIT as int),
        solids_in_bounds(solids@),
    ensures
        r == spec_grounded(collider.spec_shape(), position@, solids@),
{
    let actor_box = collider.bounds(position);
    let n = solids.len();
    let mut i: usize = 0;
    while i < n
        invariant
            n == solids@.len(),
            0 <= i <= n,
            shape_in_bounds(collider.spec_shape()),
            v2in(position@, POS_LIMIT as int),
            solids_in_bounds(solids@),
            actor_box@ == spec_shape_bounds(collider.spec_shape(), position@),
            forall|k: int|
                0 <= k < i ==> !spec_standing_on(
                    collider.spec_shape(),
                    position@,
                    #[trigger] solids@[k],
                ),
        decreases n - i,
    {
        let solid = solids[i];
        let solid_box = solid.box2();
        let side = collider.get_collision_side(position, &solid_box);
        let south = match side {
            Some(Cardinal::South) => true,
            _ => false,
        };
        if south && actor_box.max.x != solid_box.min.x && actor_box.min.x != solid_box.max.x {
            proof {
                assert(spec_standing_on(collider.spec_shape(), position@, solids@[i as int]));
            }
            return true;
        }
        i = i + 1;
    }
    false
}

impl Actor {
    /// A freshly spawned actor, not yet grounded.
    pub fn new() -> (r: Actor)
        ensures
            r == (Actor { grounded: false }),
    {
        Actor { grounded: false }
    }

    /// Run the grounding detector for this actor, once per tick after
    /// movement.
    pub fn update_grounded(&mut self, collider: &Collider, position: Vec2i, solids: &Vec<Solid>)
        requires
            shape_in_bounds(collider.spec_shape()),
            v2in(position@, POS_LIMIT as int),
            solids_in_bounds(solids@),
        ensures
            final(self).grounded == spec_grounded(collider.spec_shape(), position@, solids@),
    {
        self.grounded = check_grounded(collider, position, solids);
    }
}

/// What the first-blocker scan means: a `Some` answer points at a genuine
/// collision and nothing before it collides; a `None` answer means nothing
/// from the scan start collides.
pub proof fn lemma_first_blocker_props(
    shape: TypedShape,
    position: SpecVec2,
    solids: Seq<Solid>,
    i: int,
)
    requires
        0 <= i <= solids.len(),
    ensures
        spec_first_blocker(shape, position, solids, i) is None ==> forall|k: int|
            i <= k < solids.len() ==> !spec_shape_collides(
                shape,
                position,
                spec_solid_box(#[trigger] solids[k]),
            ),
        spec_first_blocker(shape, position, solids, i) matches Some(j) ==> i <= j < solids.len()
            && spec_shape_collides(shape, position, spec_solid_box(solids[j])) && forall|k: int|
            i <= k < j ==> !spec_shape_collides(
                shape,
                position,
                spec_solid_box(#[trigger] solids[k]),
            ),
    decreases solids.len() - i,
{
    if i < solids.len() {
        if !spec_shape_collides(shape, position, spec_solid_box(solids[i])) {
            lemma_first_blocker_props(shape, position, solids, i + 1);
        }
    }
}

/// The scan finds a blocker exactly when some solid collides.
pub proof fn lemma_first_blocker_blocked(shape: TypedShape, position: SpecVec2, solids: Seq<Solid>)
    ensures
        spec_blocked(shape, position, solids) <==> spec_first_blocker(shape, position, solids, 0)
            is Some,
{
    lemma_first_blocker_props(shape, position, solids, 0);
}

/// What the unit-stepping walk guarantees: every committed position is
/// collision-free, the walk runs to completion exactly when it reports no
/// hit, and a reported hit names the first blocking solid at the one
/// refused position.
pub proof fn lemma_axis_walk_props(
    shape: TypedShape,
    position: SpecVec2,
    d: SpecVec2,
    n: int,
    solids: Seq<Solid>,
)
    requires
        n >= 0,
    ensures
        ({
            let w = spec_axis_walk(shape, position, d, n, solids);
            &&& 0 <= w.0 <= n
            &&& forall|j: int|
                1 <= j <= w.0 ==> !spec_blocked(
                    shape,
                    v2add(position, v2scale(j, d)),
                    solids,
                )
            &&& (w.1 is None ==> w.0 == n)
            &&& (w.1 matches Some(b) ==> w.0 < n && spec_first_blocker(
                shape,
                v2add(position, v2scale(w.0 + 1, d)),
                solids,
                0,
            ) == Some(b) && spec_blocked(shape, v2add(position, v2scale(w.0 + 1, d)), solids))
        }),
    decreases n,
{
    let w = spec_axis_walk(shape, position, d, n, solids);
    if n > 0 {
        let next = v2add(position, d);
        assert(next == v2add(position, v2scale(1, d)));
        lemma_first_blocker_blocked(shape, next, solids);
        match spec_first_blocker(shape, next, solids, 0) {
            Some(_) => {
                assert(w.0 + 1 == 1);
            },
            None => {
                lemma_axis_walk_props(shape, next, d, n - 1, solids);
                let wr = spec_axis_walk(shape, next, d, n - 1, solids);
                assert forall|j: int| 1 <= j <= w.0 implies !spec_blocked(
                    shape,
                    v2add(position, v2scale(j, d)),
                    solids,
                ) by {
                    assert(j * d.x == (j - 1) * d.x + d.x) by (nonlinear_arith);
                    assert(j * d.y == (j - 1) * d.y + d.y) by (nonlinear_arith);
                    assert(v2add(position, v2scale(j, d)) == v2add(next, v2scale(j - 1, d)));
                    if j == 1 {
                        assert(!spec_blocked(shape, next, solids));
                    }
                }
                if wr.1 is Some {
                    let k = w.0 + 1;
                    assert(k * d.x == (k - 1) * d.x + d.x) by (nonlinear_arith);
                    assert(k * d.y == (k - 1) * d.y + d.y) by (nonlinear_arith);
                    assert(v2add(position, v2scale(k, d)) == v2add(next, v2scale(wr.0 + 1, d)));
                }
            },
        }
    }
}

/// With no solids at all, the walk always runs to completion.
pub proof fn lemma_walk_unobstructed(
    shape: TypedShape,
    position: SpecVec2,
    d: SpecVec2,
    n: int,
    solids: Seq<Solid>,
)
    requires
        n >= 0,
        solids.len() == 0,
    ensures
        spec_axis_walk(shape, position, d, n, solids) == (n, Option::<int>::None),
    decreases n,
{
    if n > 0 {
        lemma_walk_unobstructed(shape, v2add(position, d), d, n - 1, solids);
    }
}

/// The state after `n` integrator ticks with a fixed velocity value: the
/// integrator itself never changes the value, so only position and
/// remainder evolve.
pub open spec fn spec_run_ticks(
    shape: TypedShape,
    value: SpecVec2,
    rem: SpecVec2,
    pos: SpecVec2,
    tick: int,
    solids: Seq<Solid>,
    n: nat,
) -> (SpecVec2, SpecVec2)
    decreases n,
{
    if n == 0 {
        (pos, rem)
    } else {
        let prev = spec_run_ticks(shape, value, rem, pos, tick, solids, (n - 1) as nat);
        let t = spec_tick(shape, value, prev.1, prev.0, tick, solids);
        (t.pos, t.rem)
    }
}

/// One tick at rest does nothing: with zero velocity and an empty carry,
/// position and carry are unchanged and no collision is reported.
pub proof fn lemma_tick_at_rest(
    shape: TypedShape,
    pos: SpecVec2,
    tick: int,
    solids: Seq<Solid>,
)
    ensures
        spec_tick(shape, SpecVec2 { x: 0, y: 0 }, SpecVec2 { x: 0, y: 0 }, pos, tick, solids)
            == (SpecTick {
            pos,
            rem: SpecVec2 { x: 0, y: 0 },
            hit_x: Option::<int>::None,
            hit_y: Option::<int>::None,
        }),
{
    lemma_trunc_div_facts(0, SUBUNITS as int);
    assert(spec_delta(0, tick) == 0);
    assert(spec_steps(0, 0) == 0);
    assert(spec_new_rem(0, 0) == 0);
}

/// No tick of the run was stopped by a collision: every walk of the `n`
/// ticks ran to completion on both axes.
pub open spec fn spec_run_unobstructed(
    shape: TypedShape,
    value: SpecVec2,
    rem: SpecVec2,
    pos: SpecVec2,
    tick: int,
    solids: Seq<Solid>,
    n: nat,
) -> bool
    decreases n,
{
    if n == 0 {
        true
    } else {
        let prev = spec_run_ticks(shape, value, rem, pos, tick, solids, (n - 1) as nat);
        let t = spec_tick(shape, value, prev.1, prev.0, tick, solids);
        &&& spec_run_unobstructed(shape, value, rem, pos, tick, solids, (n - 1) as nat)
        &&& t.hit_x is None
        &&& t.hit_y is None
    }
}

/// In a world without solids, no run is ever obstructed.
pub proof fn lemma_empty_world_unobstructed(
    shape: TypedShape,
    value: SpecVec2,
    rem: SpecVec2,
    pos: SpecVec2,
    tick: int,
    solids: Seq<Solid>,
    n: nat,
)
    requires
        solids.len() == 0,
    ensures
        spec_run_unobstructed(shape, value, rem, pos, tick, solids, n),
    decreases n,
{
    if n > 0 {
        lemma_empty_world_unobstructed(shape, value, rem, pos, tick, solids, (n - 1) as nat);
        let prev = spec_run_ticks(shape, value, rem, pos, tick, solids, (n - 1) as nat);
        let t = spec_tick(shape, value, prev.1, prev.0, tick, solids);
        let dx = spec_delta(value.x, tick);
        let dy = spec_delta(value.y, tick);
        let sx = spec_steps(prev.1.x, dx);
        let sy = spec_steps(prev.1.y, dy);
        let dirx = SpecVec2 { x: spec_sign(value.x), y: 0 };
        let diry = SpecVec2 { x: 0, y: spec_sign(value.y) };
        lemma_walk_unobstructed(shape, prev.0, dirx, spec_abs(sx), solids);
        let pos1 = v2add(prev.0, v2scale(spec_abs(sx), dirx));
        lemma_walk_unobstructed(shape, pos1, diry, spec_abs(sy), solids);
    }
}

/// One more tick of one axis's accumulator: the committed whole units and
/// the new carry equal truncating the whole accumulated displacement.
proof fn lemma_axis_accumulate(value: int, tick: int, k: int)
    requires
        tick >= 0,
        k >= 0,
    ensures
        ({
            let d = spec_delta(value, tick);
            let s = spec_steps(trunc_rem(k * d, SUBUNITS as int), d);
            &&& spec_abs(s) * spec_sign(value) == s
            &&& trunc_div(k * d, SUBUNITS as int) + s == trunc_div((k + 1) * d, SUBUNITS as int)
            &&& spec_new_rem(trunc_rem(k * d, SUBUNITS as int), d) == trunc_rem(
                (k + 1) * d,
                SUBUNITS as int,
            )
        }),
{
    let b = SUBUNITS as int;
    let d = spec_delta(value, tick);
    let m = k * d;
    let r = trunc_rem(m, b);
    let s = spec_steps(r, d);
    if value >= 0 {
        assert(value * tick >= 0) by (nonlinear_arith)
            requires
                value >= 0,
                tick >= 0,
        ;
        lemma_trunc_div_facts(value * tick, b);
        assert(d >= 0);
        assert(k * d >= 0) by (nonlinear_arith)
            requires
                k >= 0,
                d >= 0,
        ;
    } else {
        assert(value * tick <= 0) by (nonlinear_arith)
            requires
                value <= 0,
                tick >= 0,
        ;
        lemma_trunc_div_facts(value * tick, b);
        assert(d <= 0);
        assert(k * d <= 0) by (nonlinear_arith)
            requires
                k >= 0,
                d <= 0,
        ;
    }
    lemma_trunc_div_facts(m, b);
    lemma_trunc_div_facts(r + d, b);
    lemma_trunc_step(m, d, b);
    assert((k + 1) * d == k * d + d) by (nonlinear_arith);
    if value == 0 {
        lemma_trunc_div_facts(0, b);
        assert(value * tick == 0) by (nonlinear_arith)
            requires
                value == 0,
        ;
    }
}

/// The actor's span on the axis perpendicular to `dir` overlaps the
/// solid's box eroded by one unit, so stepping along `dir` cannot slip
/// past the solid sideways.
pub open spec fn spec_cross_overlap(a: Aabb, pos: SpecVec2, dir: Cardinal, sb: SpecBox) -> bool {
    let h = a.half_size@;
    match dir {
        Cardinal::East | Cardinal::West => pos.y - h.y <= sb.max.y - 1 && pos.y + h.y >= sb.min.y
            + 1,
        Cardinal::North | Cardinal::South => pos.x - h.x <= sb.max.x - 1 && pos.x + h.x >= sb.min.x
            + 1,
    }
}

/// The actor's box at `pos` has not passed the face of `sb` it approaches
/// when moving along `dir`: at most touching, never beyond.
pub open spec fn spec_not_past(a: Aabb, pos: SpecVec2, dir: Cardinal, sb: SpecBox) -> bool {
    let h = a.half_size@;
    match dir {
        Cardinal::East => pos.x + h.x <= sb.min.x,
        Cardinal::West => pos.x - h.x >= sb.max.x,
        Cardinal::North => pos.y + h.y <= sb.min.y,
        Cardinal::South => pos.y - h.y >= sb.max.y,
    }
}

/// Taking all `n` steps along `dir` would carry the actor's box beyond
/// the approached face of `sb`.
pub open spec fn spec_would_pass(a: Aabb, pos: SpecVec2, dir: Cardinal, n: int, sb: SpecBox) -> bool {
    let h = a.half_size@;
    match dir {
        Cardinal::East => pos.x + n + h.x > sb.min.x,
        Cardinal::West => pos.x - n - h.x < sb.max.x,
        Cardinal::North => pos.y + n + h.y > sb.min.y,
        Cardinal::South => pos.y - n - h.y < sb.max.y,
    }
}

/// No tunneling: whatever the speed, the unit-stepping walk of a box
/// actor toward a solid of half-extent at least one unit never carries
/// the actor's box past the solid's facing face — it stops at most
/// touching it — and whenever the full step budget would have carried it
/// beyond, the walk reports a hit, so a collision event is emitted for
/// that axis.
pub proof fn lemma_no_tunneling(
    a: Aabb,
    pos: SpecVec2,
    dir: Cardinal,
    n: int,
    solids: Seq<Solid>,
    j: int,
)
    requires
        n >= 0,
        0 <= j < solids.len(),
        a.half_size@.x >= 0,
        a.half_size@.y >= 0,
        solids[j].aabb.half_size@.x >= 1,
        solids[j].aabb.half_size@.y >= 1,
        spec_cross_overlap(a, pos, dir, spec_solid_box(solids[j])),
        spec_not_past(a, pos, dir, spec_solid_box(solids[j])),
    ensures
        ({
            let w = spec_axis_walk(TypedShape::Aabb(a), pos, spec_unit_vec(dir), n, solids);
            let end = v2add(pos, v2scale(w.0, spec_unit_vec(dir)));
            &&& spec_not_past(a, end, dir, spec_solid_box(solids[j]))
            &&& (spec_would_pass(a, pos, dir, n, spec_solid_box(solids[j])) ==> w.1 is Some)
        }),
    decreases n,
{
    let shape = TypedShape::Aabb(a);
    let u = spec_unit_vec(dir);
    let sb = spec_solid_box(solids[j]);
    let h = a.half_size@;
    let w = spec_axis_walk(shape, pos, u, n, solids);
    assert(sb.max.x - sb.min.x == 2 * solids[j].aabb.half_size@.x);
    assert(sb.max.y - sb.min.y == 2 * solids[j].aabb.half_size@.y);
    if n > 0 {
        let next = v2add(pos, u);
        if !spec_not_past(a, next, dir, sb) {
            // The tentative step would enter the face by exactly one
            // unit, which collides with the eroded solid.
            assert(spec_shape_collides(shape, next, sb));
            assert(spec_blocked(shape, next, solids));
            lemma_first_blocker_blocked(shape, next, solids);
            assert(w == (0int, spec_first_blocker(shape, next, solids, 0)));
        } else {
            match spec_first_blocker(shape, next, solids, 0) {
                Some(_) => {
                    assert(w.0 == 0);
                },
                None => {
                    assert(spec_cross_overlap(a, next, dir, sb));
                    lemma_no_tunneling(a, next, dir, n - 1, solids, j);
                    let wr = spec_axis_walk(shape, next, u, n - 1, solids);
                    assert(w == (wr.0 + 1, wr.1));
                    assert((wr.0 + 1) * u.x == wr.0 * u.x + u.x) by (nonlinear_arith);
                    assert((wr.0 + 1) * u.y == wr.0 * u.y + u.y) by (nonlinear_arith);
                    assert(v2add(pos, v2scale(wr.0 + 1, u)) == v2add(next, v2scale(wr.0, u)));
                },
            }
        }
    }
}

/// The carry law: with a constant velocity, an empty starting carry and
/// no collision over the run, `n` ticks displace each axis by exactly the
/// whole part of `n` times the per-tick displacement — sub-unit motion is
/// never lost, and the carry holds exactly the fractional part.
pub proof fn lemma_remainder_accumulation(
    shape: TypedShape,
    value: SpecVec2,
    pos: SpecVec2,
    tick: int,
    solids: Seq<Solid>,
    n: nat,
)
    requires
        tick >= 0,
        spec_run_unobstructed(shape, value, SpecVec2 { x: 0, y: 0 }, pos, tick, solids, n),
    ensures
        ({
            let b = SUBUNITS as int;
            let dx = spec_delta(value.x, tick);
            let dy = spec_delta(value.y, tick);
            spec_run_ticks(shape, value, SpecVec2 { x: 0, y: 0 }, pos, tick, solids, n) == (
                SpecVec2 { x: pos.x + trunc_div(n * dx, b), y: pos.y + trunc_div(n * dy, b) },
                SpecVec2 { x: trunc_rem(n * dx, b), y: trunc_rem(n * dy, b) },
            )
        }),
    decreases n,
{
    let b = SUBUNITS as int;
    let dx = spec_delta(value.x, tick);
    let dy = spec_delta(value.y, tick);
    if n == 0 {
        lemma_trunc_div_facts(0, b);
        assert(0 * dx == 0) by (nonlinear_arith);
        assert(0 * dy == 0) by (nonlinear_arith);
    } else {
        let k = (n - 1) as nat;
        lemma_remainder_accumulation(shape, value, pos, tick, solids, k);
        let prev = spec_run_ticks(shape, value, SpecVec2 { x: 0, y: 0 }, pos, tick, solids, k);
        let t = spec_tick(shape, value, prev.1, prev.0, tick, solids);
        lemma_axis_accumulate(value.x, tick, k as int);
        lemma_axis_accumulate(value.y, tick, k as int);
        let sx = spec_steps(trunc_rem(k * dx, b), dx);
        let sy = spec_steps(trunc_rem(k * dy, b), dy);
        let dirx = SpecVec2 { x: spec_sign(value.x), y: 0 };
        let diry = SpecVec2 { x: 0, y: spec_sign(value.y) };
        // The walks of this tick were not stopped, so each commits its
        // whole step budget.
        lemma_axis_walk_props(shape, prev.0, dirx, spec_abs(sx), solids);
        let wx = spec_axis_walk(shape, prev.0, dirx, spec_abs(sx), solids);
        assert(wx.0 == spec_abs(sx));
        let pos1 = v2add(prev.0, v2scale(wx.0, dirx));
        lemma_axis_walk_props(shape, pos1, diry, spec_abs(sy), solids);
        let wy = spec_axis_walk(shape, pos1, diry, spec_abs(sy), solids);
        assert(wy.0 == spec_abs(sy));
        assert(spec_abs(sx) * 0 == 0) by (nonlinear_arith);
        assert(spec_abs(sy) * 0 == 0) by (nonlinear_arith);
        assert((k + 1) as int == n as int);
    }
}

/// Zero velocity and zero remainder leave the position unchanged after
/// any number of ticks.
pub proof fn lemma_stationary_at_rest(
    shape: TypedShape,
    pos: SpecVec2,
    tick: int,
    solids: Seq<Solid>,
    n: nat,
)
    ensures
        spec_run_ticks(
            shape,
            SpecVec2 { x: 0, y: 0 },
            SpecVec2 { x: 0, y: 0 },
            pos,
            tick,
            solids,
            n,
        ) == (pos, SpecVec2 { x: 0, y: 0 }),
    decreases n,
{
    if n > 0 {
        lemma_stationary_at_rest(shape, pos, tick, solids, (n - 1) as nat);
        lemma_tick_at_rest(shape, pos, tick, solids);
    }
}

} // verus!
