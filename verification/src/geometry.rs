//! The collision primitive: an axis-aligned bounding-box overlap test that
//! reports which side of the second box the first box struck.
//!
//! Each box is given by its center and its full extent. To avoid halving,
//! every specification and computation works on doubled coordinates: the
//! doubled low edge of a box is `2 * center - extent` and the doubled high
//! edge is `2 * center + extent`, which keeps all arithmetic in integers.

use vstd::prelude::*;

use crate::config::COORD_LIMIT;

verus! {

/// A planar vector in subunit coordinates: a position, an extent
/// or a velocity.
#[derive(Clone, Copy, PartialEq, Eq, Structural, Debug)]
pub struct Vec2 {
    pub x: i64,
    pub y: i64,
}

/// The side of the second box that the first box struck, or `Inside` when
/// the boxes overlap without the first sticking out past exactly one edge
/// on either axis.
#[derive(Clone, Copy, PartialEq, Eq, Structural, Debug)]
pub enum Collision {
    Left,
    Right,
    Top,
    Bottom,
    Inside,
}

/// An axis-aligned box given by its center and its full extent.
#[derive(Clone, Copy, PartialEq, Eq, Structural, Debug)]
pub struct Aabb {
    pub pos: Vec2,
    pub size: Vec2,
}

/// The two intervals with centers `ac`, `bc` and full extents `ae`, `be`
/// overlap on a set of positive length (touching edges do not count).
pub open spec fn intervals_overlap(ac: int, ae: int, bc: int, be: int) -> bool {
    2 * ac - ae < 2 * bc + be && 2 * ac + ae > 2 * bc - be
}

/// The two boxes overlap on both axes.
pub open spec fn boxes_overlap(a_pos: Vec2, a_size: Vec2, b_pos: Vec2, b_size: Vec2) -> bool {
    &&& intervals_overlap(a_pos.x as int, a_size.x as int, b_pos.x as int, b_size.x as int)
    &&& intervals_overlap(a_pos.y as int, a_size.y as int, b_pos.y as int, b_size.y as int)
}

/// On one axis, the first interval sticks out past the second's low edge,
/// overlaps that edge, and does not reach the second's high edge.
pub open spec fn sticks_out_low(ac: int, ae: int, bc: int, be: int) -> bool {
    &&& 2 * ac - ae < 2 * bc - be
    &&& 2 * bc - be < 2 * ac + ae
    &&& 2 * ac + ae < 2 * bc + be
}

/// On one axis, the first interval sticks out past the second's high edge,
/// overlaps that edge, and does not reach the second's low edge.
pub open spec fn sticks_out_high(ac: int, ae: int, bc: int, be: int) -> bool {
    &&& 2 * bc - be < 2 * ac - ae
    &&& 2 * ac - ae < 2 * bc + be
    &&& 2 * bc + be < 2 * ac + ae
}

/// Doubled penetration depth on one axis: how far the first interval
/// reaches past the struck edge of the second, or `None` when the first
/// interval does not stick out past exactly one edge (so no single side of
/// the second was struck on this axis).
pub open spec fn axis_penetration(ac: int, ae: int, bc: int, be: int) -> Option<int> {
    if sticks_out_low(ac, ae, bc, be) {
        Some((2 * ac + ae) - (2 * bc - be))
    } else if sticks_out_high(ac, ae, bc, be) {
        Some((2 * bc + be) - (2 * ac - ae))
    } else {
        None
    }
}

/// The side struck on the x axis, assuming the x axis has a finite
/// penetration: past the low edge means the second box's left side.
pub open spec fn x_side(a_pos: Vec2, a_size: Vec2, b_pos: Vec2, b_size: Vec2) -> Collision {
    if sticks_out_low(a_pos.x as int, a_size.x as int, b_pos.x as int, b_size.x as int) {
        Collision::Left
    } else {
        Collision::Right
    }
}

/// The side struck on the y axis, assuming the y axis has a finite
/// penetration: past the low edge means the second box's bottom side.
pub open spec fn y_side(a_pos: Vec2, a_size: Vec2, b_pos: Vec2, b_size: Vec2) -> Collision {
    if sticks_out_low(a_pos.y as int, a_size.y as int, b_pos.y as int, b_size.y as int) {
        Collision::Bottom
    } else {
        Collision::Top
    }
}

/// What the collision primitive reports: `None` when the boxes do not
/// overlap; otherwise the struck side of the second box, chosen as the side
/// of the axis with the smaller penetration depth. An axis on which the
/// first box does not stick out past exactly one edge counts as infinitely
/// deep; when both axes are such, the first box sits inside the second and
/// the report is `Inside`. On equal depths the x side wins (the
/// deterministic tie-break).
pub open spec fn collide_spec(a_pos: Vec2, a_size: Vec2, b_pos: Vec2, b_size: Vec2) -> Option<
    Collision,
> {
    if !boxes_overlap(a_pos, a_size, b_pos, b_size) {
        None
    } else {
        let xp = axis_penetration(a_pos.x as int, a_size.x as int, b_pos.x as int, b_size.x as int);
        let yp = axis_penetration(a_pos.y as int, a_size.y as int, b_pos.y as int, b_size.y as int);
        match (xp, yp) {
            (Option::None, Option::None) => Some(Collision::Inside),
            (Option::Some(_), Option::None) => Some(x_side(a_pos, a_size, b_pos, b_size)),
            (Option::None, Option::Some(_)) => Some(y_side(a_pos, a_size, b_pos, b_size)),
            (Option::Some(xd), Option::Some(yd)) => if yd < xd {
                Some(y_side(a_pos, a_size, b_pos, b_size))
            } else {
                Some(x_side(a_pos, a_size, b_pos, b_size))
            },
        }
    }
}

/// The box's center and extent are small enough for the doubled arithmetic
/// of the collision test to stay within `i64`, and its extent is not
/// negative.
pub open spec fn box_bounded(b: Aabb) -> bool {
    &&& -COORD_LIMIT <= b.pos.x <= COORD_LIMIT
    &&& -COORD_LIMIT <= b.pos.y <= COORD_LIMIT
    &&& 0 <= b.size.x <= COORD_LIMIT
    &&& 0 <= b.size.y <= COORD_LIMIT
}

/// Every coordinate of the pair of boxes is small enough for the doubled
/// arithmetic below to stay within `i64`.
pub open spec fn collide_args_bounded(a_pos: Vec2, a_size: Vec2, b_pos: Vec2, b_size: Vec2) -> bool {
    &&& box_bounded(Aabb { pos: a_pos, size: a_size })
    &&& box_bounded(Aabb { pos: b_pos, size: b_size })
}

/// Axis-aligned bounding-box collision test between a box `a` and a box
/// `b`, each given by center and full extent. Reports the side of `b` that
/// `a` struck, or `None` when they do not overlap. Pure: no side effects.
pub fn collide(a_pos: Vec2, a_size: Vec2, b_pos: Vec2, b_size: Vec2) -> (r: Option<Collision>)
    requires
        collide_args_bounded(a_pos, a_size, b_pos, b_size),
    ensures
        r == collide_spec(a_pos, a_size, b_pos, b_size),
{
    let a_min_x: i64 = 2 * a_pos.x - a_size.x;
    let a_max_x: i64 = 2 * a_pos.x + a_size.x;
    let a_min_y: i64 = 2 * a_pos.y - a_size.y;
    let a_max_y: i64 = 2 * a_pos.y + a_size.y;
    let b_min_x: i64 = 2 * b_pos.x - b_size.x;
    let b_max_x: i64 = 2 * b_pos.x + b_size.x;
    let b_min_y: i64 = 2 * b_pos.y - b_size.y;
    let b_max_y: i64 = 2 * b_pos.y + b_size.y;

    if !(a_min_x < b_max_x && a_max_x > b_min_x && a_min_y < b_max_y && a_max_y > b_min_y) {
        return None;
    }

    let x_low: bool = a_min_x < b_min_x && b_min_x < a_max_x && a_max_x < b_max_x;
    let x_high: bool = b_min_x < a_min_x && a_min_x < b_max_x && b_max_x < a_max_x;
    let y_low: bool = a_min_y < b_min_y && b_min_y < a_max_y && a_max_y < b_max_y;
    let y_high: bool = b_min_y < a_min_y && a_min_y < b_max_y && b_max_y < a_max_y;

    let xp: Option<i64> = if x_low {
        Some(a_max_x - b_min_x)
    } else if x_high {
        Some(b_max_x - a_min_x)
    } else {
        None
    };
    let yp: Option<i64> = if y_low {
        Some(a_max_y - b_min_y)
    } else if y_high {
        Some(b_max_y - a_min_y)
    } else {
        None
    };

    match (xp, yp) {
        (Option::None, Option::None) => Some(Collision::Inside),
        (Option::Some(_), Option::None) => Some(
            if x_low {
                Collision::Left
            } else {
                Collision::Right
            },
        ),
        (Option::None, Option::Some(_)) => Some(
            if y_low {
                Collision::Bottom
            } else {
                Collision::Top
            },
        ),
        (Option::Some(xd), Option::Some(yd)) => if yd < xd {
            Some(
                if y_low {
                    Collision::Bottom
                } else {
                    Collision::Top
                },
            )
        } else {
            Some(
                if x_low {
                    Collision::Left
                } else {
                    Collision::Right
                },
            )
        },
    }
}

/// Whether two boxes overlap does not depend on their order, so for two
/// boxes that do not overlap the primitive reports no collision in either
/// argument order.
pub proof fn lemma_no_collision_symmetric(a_pos: Vec2, a_size: Vec2, b_pos: Vec2, b_size: Vec2)
    ensures
        collide_spec(a_pos, a_size, b_pos, b_size) is None <==> collide_spec(
            b_pos,
            b_size,
            a_pos,
            a_size,
        ) is None,
{
}

} // verus!
