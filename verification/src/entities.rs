//! The entity records of the game: paddles, the ball, the four boundary
//! walls, the scoreboard and the collision event marker. All are created
//! once at startup and live for the whole match.

use vstd::prelude::*;

use crate::config::{
    BALL_HEIGHT, BALL_START_X, BALL_START_Y, BALL_WIDTH, BOTTOM_WALL, COORD_LIMIT,
    GAP_BETWEEN_PADDLE_AND_SIDES, HORIZONTAL_WALL_LENGTH, LEFT_WALL, PADDLE_HEIGHT,
    PADDLE_LOWER_BOUND, PADDLE_SPEED, PADDLE_UPPER_BOUND, PADDLE_WIDTH, RIGHT_WALL,
    SIDE_WALL_LENGTH, TOP_WALL, VEL_LIMIT, WALL_THICKNESS,
};
use crate::geometry::{Aabb, Vec2};

verus! {

/// Which player a paddle belongs to.
#[derive(Clone, Copy, PartialEq, Eq, Structural, Debug)]
pub enum Side {
    Left,
    Right,
}

/// Which side of the arena a wall is located on.
#[derive(Clone, Copy, PartialEq, Eq, Structural, Debug)]
pub enum WallLocation {
    Left,
    Right,
    Bottom,
    Top,
}

impl WallLocation {
    /// The center of the wall at this location.
    pub open spec fn position_spec(self) -> Vec2 {
        match self {
            WallLocation::Left => Vec2 { x: LEFT_WALL, y: 0 },
            WallLocation::Right => Vec2 { x: RIGHT_WALL, y: 0 },
            WallLocation::Bottom => Vec2 { x: 0, y: BOTTOM_WALL },
            WallLocation::Top => Vec2 { x: 0, y: TOP_WALL },
        }
    }

    /// The full extent of the wall at this location: side walls span the
    /// arena height, horizontal walls span the arena width, each extended
    /// by one thickness so the four corners close.
    pub open spec fn size_spec(self) -> Vec2 {
        match self {
            WallLocation::Left | WallLocation::Right => Vec2 {
                x: WALL_THICKNESS,
                y: SIDE_WALL_LENGTH,
            },
            WallLocation::Bottom | WallLocation::Top => Vec2 {
                x: HORIZONTAL_WALL_LENGTH,
                y: WALL_THICKNESS,
            },
        }
    }

    /// The center of the wall at this location.
    pub fn position(&self) -> (p: Vec2)
        ensures
            p == self.position_spec(),
    {
        match self {
            WallLocation::Left => Vec2 { x: LEFT_WALL, y: 0 },
            WallLocation::Right => Vec2 { x: RIGHT_WALL, y: 0 },
            WallLocation::Bottom => Vec2 { x: 0, y: BOTTOM_WALL },
            WallLocation::Top => Vec2 { x: 0, y: TOP_WALL },
        }
    }

    /// The full extent of the wall at this location; both extents are
    /// strictly positive because the arena is strictly wider and taller
    /// than nothing.
    pub fn size(&self) -> (s: Vec2)
        ensures
            s == self.size_spec(),
            s.x > 0,
            s.y > 0,
    {
        match self {
            WallLocation::Left | WallLocation::Right => Vec2 {
                x: WALL_THICKNESS,
                y: SIDE_WALL_LENGTH,
            },
            WallLocation::Bottom | WallLocation::Top => Vec2 {
                x: HORIZONTAL_WALL_LENGTH,
                y: WALL_THICKNESS,
            },
        }
    }
}

/// A static boundary collider.
#[derive(Clone, Copy, PartialEq, Eq, Structural, Debug)]
pub struct Wall {
    pub location: WallLocation,
    pub pos: Vec2,
    pub size: Vec2,
}

impl Wall {
    /// A wall sits exactly where its location dictates.
    pub open spec fn wf(self) -> bool {
        &&& self.pos == self.location.position_spec()
        &&& self.size == self.location.size_spec()
    }

    /// The box this wall offers to the collision test.
    pub open spec fn collider_box(self) -> Aabb {
        Aabb { pos: self.pos, size: self.size }
    }

    /// Build the wall for one location, computing its position and extent
    /// from the arena constants.
    pub fn new(location: WallLocation) -> (w: Wall)
        ensures
            w.wf(),
            w.location == location,
    {
        Wall { location, pos: location.position(), size: location.size() }
    }
}

/// Signed vertical direction from the two held keys of one paddle: up minus
/// down, one of -1, 0 or +1.
pub open spec fn paddle_direction(up: bool, down: bool) -> int {
    (if up {
        1int
    } else {
        0int
    }) - (if down {
        1int
    } else {
        0int
    })
}

/// `v` clamped into `[lo, hi]` (meaningful when `lo <= hi`).
pub open spec fn clamped(v: int, lo: int, hi: int) -> int {
    if v < lo {
        lo
    } else if v > hi {
        hi
    } else {
        v
    }
}

/// Where a paddle center ends up after one tick of the given key state:
/// moved by direction times speed, then clamped into the arena bounds.
pub open spec fn moved_paddle_y(y: int, up: bool, down: bool) -> int {
    clamped(y + paddle_direction(up, down) * PADDLE_SPEED, PADDLE_LOWER_BOUND as int,
        PADDLE_UPPER_BOUND as int)
}

/// Paddle bound clamp: wherever a paddle center starts and whatever keys
/// are held, after one tick it lies within the arena bounds — so for any
/// sequence of inputs the bound holds at the end of every tick.
pub proof fn lemma_paddle_stays_in_bounds(y: int, up: bool, down: bool)
    ensures
        PADDLE_LOWER_BOUND <= moved_paddle_y(y, up, down) <= PADDLE_UPPER_BOUND,
{
}

/// Where a paddle center ends up after a whole sequence of ticks, each with
/// its own pair of held keys, starting from `y0`.
pub open spec fn paddle_y_after(y0: int, inputs: Seq<(bool, bool)>) -> int
    decreases inputs.len(),
{
    if inputs.len() == 0 {
        y0
    } else {
        moved_paddle_y(paddle_y_after(y0, inputs.drop_last()), inputs.last().0, inputs.last().1)
    }
}

/// Paddle bound clamp over whole histories: for any starting center and any
/// non-empty sequence of inputs, the paddle center lies within the arena
/// bounds at the end of every tick.
pub proof fn lemma_paddle_bounds_over_any_inputs(y0: int, inputs: Seq<(bool, bool)>)
    requires
        inputs.len() > 0,
    ensures
        PADDLE_LOWER_BOUND <= paddle_y_after(y0, inputs) <= PADDLE_UPPER_BOUND,
{
    lemma_paddle_stays_in_bounds(
        paddle_y_after(y0, inputs.drop_last()),
        inputs.last().0,
        inputs.last().1,
    );
}

/// A player's paddle: its side, its center and its fixed extent. Velocity
/// is derived from the key state each tick and not persisted.
#[derive(Clone, Copy, PartialEq, Eq, Structural, Debug)]
pub struct Paddle {
    pub side: Side,
    pub pos: Vec2,
    pub size: Vec2,
}

impl Paddle {
    /// The x coordinate a paddle keeps for its whole life: one gap in from
    /// the wall of its side.
    pub open spec fn home_x(side: Side) -> int {
        match side {
            Side::Left => LEFT_WALL + GAP_BETWEEN_PADDLE_AND_SIDES,
            Side::Right => RIGHT_WALL - GAP_BETWEEN_PADDLE_AND_SIDES,
        }
    }

    /// A paddle has its fixed extent, sits at its side's x coordinate and
    /// its center stays within the arena bounds.
    pub open spec fn wf(self) -> bool {
        &&& self.size.x == PADDLE_WIDTH
        &&& self.size.y == PADDLE_HEIGHT
        &&& self.pos.x == Self::home_x(self.side)
        &&& PADDLE_LOWER_BOUND <= self.pos.y <= PADDLE_UPPER_BOUND
    }

    /// The box this paddle offers to the collision test.
    pub open spec fn collider_box(self) -> Aabb {
        Aabb { pos: self.pos, size: self.size }
    }

    /// A paddle at the vertical center of its side's home column.
    pub fn new(side: Side) -> (p: Paddle)
        ensures
            p.wf(),
            p.side == side,
            p.pos.y == 0,
    {
        let x: i64 = match side {
            Side::Left => LEFT_WALL + GAP_BETWEEN_PADDLE_AND_SIDES,
            Side::Right => RIGHT_WALL - GAP_BETWEEN_PADDLE_AND_SIDES,
        };
        Paddle { side, pos: Vec2 { x, y: 0 }, size: Vec2 { x: PADDLE_WIDTH, y: PADDLE_HEIGHT } }
    }

    /// One tick of paddle motion: derive the direction from the held keys,
    /// move by direction times speed, clamp into the arena bounds. Mutates
    /// only the paddle's y position.
    pub fn advance(&mut self, up: bool, down: bool)
        requires
            old(self).wf(),
        ensures
            final(self).wf(),
            final(self).side == old(self).side,
            final(self).size == old(self).size,
            final(self).pos.x == old(self).pos.x,
            final(self).pos.y as int == moved_paddle_y(old(self).pos.y as int, up, down),
    {
        let direction: i64 = (if up {
            1
        } else {
            0
        }) - (if down {
            1
        } else {
            0
        });
        let target: i64 = self.pos.y + direction * PADDLE_SPEED;
        self.pos.y = if target < PADDLE_LOWER_BOUND {
            PADDLE_LOWER_BOUND
        } else if target > PADDLE_UPPER_BOUND {
            PADDLE_UPPER_BOUND
        } else {
            target
        };
    }
}

/// The ball: the probe of the collision system, never a target. Its
/// velocity persists across ticks; its extent is fixed.
#[derive(Clone, Copy, PartialEq, Eq, Structural, Debug)]
pub struct Ball {
    pub pos: Vec2,
    pub size: Vec2,
    pub vel: Vec2,
}

impl Ball {
    /// The ball has its fixed extent, a position the collision primitive
    /// can handle, and a bounded velocity.
    pub open spec fn wf(self) -> bool {
        &&& self.size.x == BALL_WIDTH
        &&& self.size.y == BALL_HEIGHT
        &&& -COORD_LIMIT <= self.pos.x <= COORD_LIMIT
        &&& -COORD_LIMIT <= self.pos.y <= COORD_LIMIT
        &&& -VEL_LIMIT <= self.vel.x <= VEL_LIMIT
        &&& -VEL_LIMIT <= self.vel.y <= VEL_LIMIT
    }

    /// A ball at the starting position with the given velocity.
    pub fn new(velocity: Vec2) -> (b: Ball)
        requires
            -VEL_LIMIT <= velocity.x <= VEL_LIMIT,
            -VEL_LIMIT <= velocity.y <= VEL_LIMIT,
        ensures
            b.wf(),
            b.pos.x == BALL_START_X,
            b.pos.y == BALL_START_Y,
            b.vel == velocity,
    {
        Ball {
            pos: Vec2 { x: BALL_START_X, y: BALL_START_Y },
            size: Vec2 { x: BALL_WIDTH, y: BALL_HEIGHT },
            vel: velocity,
        }
    }
}

/// The two score counters, mutated only through the increment hooks below.
#[derive(Clone, Copy, PartialEq, Eq, Structural, Debug)]
pub struct Scoreboard {
    pub left_score: usize,
    pub right_score: usize,
}

impl Scoreboard {
    /// A scoreboard with both counters at zero.
    pub fn new() -> (s: Scoreboard)
        ensures
            s.left_score == 0,
            s.right_score == 0,
    {
        Scoreboard { left_score: 0, right_score: 0 }
    }

    /// Award one point to the left player.
    pub fn increment_left(&mut self)
        requires
            old(self).left_score < usize::MAX,
        ensures
            final(self).left_score == old(self).left_score + 1,
            final(self).right_score == old(self).right_score,
    {
        self.left_score = self.left_score + 1;
    }

    /// Award one point to the right player.
    pub fn increment_right(&mut self)
        requires
            old(self).right_score < usize::MAX,
        ensures
            final(self).right_score == old(self).right_score + 1,
            final(self).left_score == old(self).left_score,
    {
        self.right_score = self.right_score + 1;
    }
}

/// An ephemeral notification, one per overlapping collider per tick, with
/// no payload; listeners drain the tick's events before the next tick.
#[derive(Clone, Copy, PartialEq, Eq, Structural, Debug)]
pub struct CollisionEvent;

impl Default for CollisionEvent {
    /// Events carry no payload, so the default value is the event.
    fn default() -> (e: CollisionEvent)
        ensures
            e == CollisionEvent,
    {
        CollisionEvent
    }
}

} // verus!
