//! Tunable constants of the simulation, fixed at startup.
//!
//! All lengths are in subunits: `SUBUNITS_PER_UNIT` subunits make one world
//! unit. The subunit count equals `TICKS_PER_SECOND`, so a velocity given in
//! world units per second is also the number of subunits it advances per
//! tick, and integration needs no division.

use vstd::prelude::*;

verus! {

/// Fixed simulation rate: ticks of game time per second.
pub const TICKS_PER_SECOND: i64 = 60;

/// Subunits per world unit; equal to the tick rate on purpose (see module doc).
pub const SUBUNITS_PER_UNIT: i64 = 60;

/// Full paddle extent on the x axis.
pub const PADDLE_WIDTH: i64 = 20 * SUBUNITS_PER_UNIT;

/// Full paddle extent on the y axis.
pub const PADDLE_HEIGHT: i64 = 120 * SUBUNITS_PER_UNIT;

/// Horizontal distance from a side wall to the paddle center on that side.
pub const GAP_BETWEEN_PADDLE_AND_SIDES: i64 = 60 * SUBUNITS_PER_UNIT;

/// Paddle speed in world units per second, i.e. subunits per tick.
pub const PADDLE_SPEED: i64 = 500;

/// How close a paddle may get to a horizontal wall.
pub const PADDLE_PADDING: i64 = 10 * SUBUNITS_PER_UNIT;

/// Ball starting position, x coordinate.
pub const BALL_START_X: i64 = 0;

/// Ball starting position, y coordinate.
pub const BALL_START_Y: i64 = -50 * SUBUNITS_PER_UNIT;

/// Full ball extent on the x axis.
pub const BALL_WIDTH: i64 = 30 * SUBUNITS_PER_UNIT;

/// Full ball extent on the y axis.
pub const BALL_HEIGHT: i64 = 30 * SUBUNITS_PER_UNIT;

/// Ball speed in world units per second, i.e. subunits per tick.
pub const BALL_SPEED: i64 = 400;

/// Thickness of every boundary wall.
pub const WALL_THICKNESS: i64 = 10 * SUBUNITS_PER_UNIT;

/// x coordinate of the left wall's center line.
pub const LEFT_WALL: i64 = -450 * SUBUNITS_PER_UNIT;

/// x coordinate of the right wall's center line.
pub const RIGHT_WALL: i64 = 450 * SUBUNITS_PER_UNIT;

/// y coordinate of the bottom wall's center line.
pub const BOTTOM_WALL: i64 = -300 * SUBUNITS_PER_UNIT;

/// y coordinate of the top wall's center line.
pub const TOP_WALL: i64 = 300 * SUBUNITS_PER_UNIT;

/// Arena width between the side walls' center lines; must be positive.
pub const ARENA_WIDTH: i64 = RIGHT_WALL - LEFT_WALL;

/// Arena height between the horizontal walls' center lines; must be positive.
pub const ARENA_HEIGHT: i64 = TOP_WALL - BOTTOM_WALL;

/// Full y extent of a side wall: the arena height plus one thickness, so
/// the four corners close.
pub const SIDE_WALL_LENGTH: i64 = ARENA_HEIGHT + WALL_THICKNESS;

/// Full x extent of a horizontal wall: the arena width plus one thickness.
pub const HORIZONTAL_WALL_LENGTH: i64 = ARENA_WIDTH + WALL_THICKNESS;

/// Half of `WALL_THICKNESS`.
pub const WALL_HALF_THICKNESS: i64 = 5 * SUBUNITS_PER_UNIT;

/// Half of `PADDLE_HEIGHT`.
pub const PADDLE_HALF_HEIGHT: i64 = 60 * SUBUNITS_PER_UNIT;

/// Highest y a paddle center may reach.
pub const PADDLE_UPPER_BOUND: i64 = TOP_WALL - WALL_HALF_THICKNESS - PADDLE_HALF_HEIGHT - PADDLE_PADDING;

/// Lowest y a paddle center may reach.
pub const PADDLE_LOWER_BOUND: i64 = BOTTOM_WALL + WALL_HALF_THICKNESS + PADDLE_HALF_HEIGHT + PADDLE_PADDING;

/// Bound on every coordinate the collision primitive handles, chosen so
/// that doubled coordinates plus extents stay far inside the `i64` range.
pub const COORD_LIMIT: i64 = 0x0800_0000_0000_0000;

/// Bound on each ball velocity component.
pub const VEL_LIMIT: i64 = 1_000_000_000;

/// The arena the constants above describe is strictly wider and taller than
/// nothing; every downstream bound computation depends on this.
pub proof fn lemma_arena_dimensions_positive()
    ensures
        ARENA_WIDTH > 0,
        ARENA_HEIGHT > 0,
        PADDLE_LOWER_BOUND <= PADDLE_UPPER_BOUND,
{
}

} // verus!
