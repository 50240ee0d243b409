//! Collision resolution: reflecting the ball's velocity off a struck side,
//! and folding that response over a sequence of colliders.
//!
//! A reflection is a pure sign negation of one velocity component, and it
//! fires only when the ball is moving into the obstacle on that axis, so a
//! box that still overlaps one tick after it bounced does not flip the
//! velocity back.

use vstd::prelude::*;

use crate::geometry::{Aabb, Collision, Vec2, collide_spec};

verus! {

/// The x component reflects: the ball struck the obstacle's left side while
/// moving right, or its right side while moving left.
pub open spec fn reflects_x(side: Collision, vx: int) -> bool {
    (side == Collision::Left && vx > 0) || (side == Collision::Right && vx < 0)
}

/// The y component reflects: the ball struck the obstacle's top side while
/// moving down, or its bottom side while moving up.
pub open spec fn reflects_y(side: Collision, vy: int) -> bool {
    (side == Collision::Top && vy < 0) || (side == Collision::Bottom && vy > 0)
}

/// The x velocity after responding to a struck side.
pub open spec fn resolved_vx(vx: int, side: Collision) -> int {
    if reflects_x(side, vx) {
        -vx
    } else {
        vx
    }
}

/// The y velocity after responding to a struck side.
pub open spec fn resolved_vy(vy: int, side: Collision) -> int {
    if reflects_y(side, vy) {
        -vy
    } else {
        vy
    }
}

/// Reflect a velocity off a struck side: flip the component that moves into
/// the obstacle, leave the other alone; `Inside` flips nothing.
pub fn resolve_velocity(v: Vec2, side: Collision) -> (r: Vec2)
    requires
        v.x > i64::MIN,
        v.y > i64::MIN,
    ensures
        r.x as int == resolved_vx(v.x as int, side),
        r.y as int == resolved_vy(v.y as int, side),
{
    let reflect_x: bool = match side {
        Collision::Left => v.x > 0,
        Collision::Right => v.x < 0,
        _ => false,
    };
    let reflect_y: bool = match side {
        Collision::Top => v.y < 0,
        Collision::Bottom => v.y > 0,
        _ => false,
    };
    Vec2 {
        x: if reflect_x {
            -v.x
        } else {
            v.x
        },
        y: if reflect_y {
            -v.y
        } else {
            v.y
        },
    }
}

/// The ball's velocity after testing one collider and responding to it:
/// unchanged when the boxes do not overlap, reflected off the struck side
/// otherwise.
pub open spec fn pair_resolved(ball_pos: Vec2, ball_size: Vec2, vx: int, vy: int, c: Aabb) -> (
    int,
    int,
) {
    match collide_spec(ball_pos, ball_size, c.pos, c.size) {
        Option::Some(side) => (resolved_vx(vx, side), resolved_vy(vy, side)),
        Option::None => (vx, vy),
    }
}

/// The ball's velocity after testing every collider of `cs` in order,
/// responding to each overlap as `pair_resolved` says.
pub open spec fn all_resolved(ball_pos: Vec2, ball_size: Vec2, vx: int, vy: int, cs: Seq<Aabb>) -> (
    int,
    int,
)
    decreases cs.len(),
{
    if cs.len() == 0 {
        (vx, vy)
    } else {
        let prev = all_resolved(ball_pos, ball_size, vx, vy, cs.drop_last());
        pair_resolved(ball_pos, ball_size, prev.0, prev.1, cs.last())
    }
}

/// How many colliders of `cs` the ball overlaps: one collision event is
/// emitted for each.
pub open spec fn collision_count(ball_pos: Vec2, ball_size: Vec2, cs: Seq<Aabb>) -> nat
    decreases cs.len(),
{
    if cs.len() == 0 {
        0
    } else {
        collision_count(ball_pos, ball_size, cs.drop_last()) + (
        if collide_spec(ball_pos, ball_size, cs.last().pos, cs.last().size) is Some {
            1nat
        } else {
            0nat
        })
    }
}

/// Reflection conserves speed exactly: the squared magnitude of the
/// velocity after responding to any struck side equals the squared
/// magnitude before.
pub proof fn lemma_reflection_conserves_speed(vx: int, vy: int, side: Collision)
    ensures
        resolved_vx(vx, side) * resolved_vx(vx, side) + resolved_vy(vy, side) * resolved_vy(
            vy,
            side,
        ) == vx * vx + vy * vy,
{
    assert((-vx) * (-vx) == vx * vx) by (nonlinear_arith);
    assert((-vy) * (-vy) == vy * vy) by (nonlinear_arith);
}

/// No double flip: responding twice to the same struck side changes nothing
/// the second time, because a flipped component no longer moves into the
/// obstacle. A ball that still overlaps a collider on the next tick is
/// therefore not sent back into it.
pub proof fn lemma_resolution_idempotent(vx: int, vy: int, side: Collision)
    ensures
        resolved_vx(resolved_vx(vx, side), side) == resolved_vx(vx, side),
        resolved_vy(resolved_vy(vy, side), side) == resolved_vy(vy, side),
{
}

/// Folding the response over any collider sequence only ever negates
/// components, so each component of the result is the original or its
/// negation — in particular speed is conserved across a whole tick's
/// resolution.
pub proof fn lemma_all_resolved_components(
    ball_pos: Vec2,
    ball_size: Vec2,
    vx: int,
    vy: int,
    cs: Seq<Aabb>,
)
    ensures
        ({
            let r = all_resolved(ball_pos, ball_size, vx, vy, cs);
            (r.0 == vx || r.0 == -vx) && (r.1 == vy || r.1 == -vy)
        }),
    decreases cs.len(),
{
    if cs.len() > 0 {
        lemma_all_resolved_components(ball_pos, ball_size, vx, vy, cs.drop_last());
    }
}

} // verus!
