//! The world of one match — both paddles, the ball, the four walls and the
//! scoreboard — and the fixed tick that advances it: paddle motion first,
//! then velocity integration, then collision resolution, in that order, so
//! collisions are always tested against post-move positions.

use vstd::prelude::*;

use crate::collision::{
    all_resolved, collision_count, pair_resolved, resolve_velocity,
};
use crate::config::{BALL_START_X, BALL_START_Y, COORD_LIMIT, VEL_LIMIT};
use crate::entities::{
    moved_paddle_y, Ball, CollisionEvent, Paddle, Scoreboard, Side, Wall, WallLocation,
};
use crate::geometry::{box_bounded, collide, collide_spec, Aabb, Vec2};

verus! {

/// Test the ball against one collider: report an event and reflect the
/// velocity when they overlap, hand the velocity back unchanged otherwise.
fn resolve_against_collider(
    ball_pos: Vec2,
    ball_size: Vec2,
    vel: Vec2,
    c: Aabb,
    events: &mut Vec<CollisionEvent>,
) -> (r: Vec2)
    requires
        box_bounded(Aabb { pos: ball_pos, size: ball_size }),
        box_bounded(c),
        vel.x > i64::MIN,
        vel.y > i64::MIN,
    ensures
        (r.x as int, r.y as int) == pair_resolved(
            ball_pos,
            ball_size,
            vel.x as int,
            vel.y as int,
            c,
        ),
        collide_spec(ball_pos, ball_size, c.pos, c.size) is Some ==> final(events)@ == old(
            events,
        )@.push(CollisionEvent),
        collide_spec(ball_pos, ball_size, c.pos, c.size) is None ==> final(events)@ == old(
            events,
        )@,
{
    match collide(ball_pos, ball_size, c.pos, c.size) {
        Some(side) => {
            events.push(CollisionEvent::default());
            resolve_velocity(vel, side)
        },
        None => vel,
    }
}

/// All entity state of a match. Everything is created once by `new` and
/// lives for the whole process; the tick mutates paddle positions, the
/// ball, and nothing else.
pub struct World {
    pub left_paddle: Paddle,
    pub right_paddle: Paddle,
    pub ball: Ball,
    pub walls: Vec<Wall>,
    pub scoreboard: Scoreboard,
}

impl World {
    /// Both paddles sit on their own sides, the ball is well formed, and
    /// the four walls stand exactly where the arena constants put them.
    pub open spec fn wf(self) -> bool {
        &&& self.left_paddle.wf()
        &&& self.left_paddle.side == Side::Left
        &&& self.right_paddle.wf()
        &&& self.right_paddle.side == Side::Right
        &&& self.ball.wf()
        &&& self.walls@.len() == 4
        &&& forall|i: int| 0 <= i < 4 ==> (#[trigger] self.walls@[i]).wf()
        &&& self.walls@[0].location == WallLocation::Left
        &&& self.walls@[1].location == WallLocation::Right
        &&& self.walls@[2].location == WallLocation::Bottom
        &&& self.walls@[3].location == WallLocation::Top
    }

    /// The registry of colliders the ball is tested against, in the order
    /// resolution walks them: the four walls, then the two paddles. The
    /// ball itself is the probe, not a target.
    pub open spec fn collider_boxes(self) -> Seq<Aabb> {
        self.walls@.map_values(|w: Wall| w.collider_box()).push(
            self.left_paddle.collider_box(),
        ).push(self.right_paddle.collider_box())
    }

    /// Every collider box a well-formed world offers stays within the
    /// coordinate bound of the collision primitive.
    pub proof fn lemma_collider_boxes_bounded(self)
        requires
            self.wf(),
        ensures
            self.collider_boxes().len() == 6,
            forall|i: int| 0 <= i < 6 ==> box_bounded(#[trigger] self.collider_boxes()[i]),
    {
        let cs = self.collider_boxes();
        assert forall|i: int| 0 <= i < 6 implies box_bounded(#[trigger] cs[i]) by {
            if i < 4 {
                assert(cs[i] == self.walls@[i].collider_box());
                assert(self.walls@[i].wf());
            } else if i == 4 {
                assert(cs[i] == self.left_paddle.collider_box());
            } else {
                assert(cs[i] == self.right_paddle.collider_box());
            }
        }
    }

    /// Set up a match: the paddles centered on their home columns, the
    /// ball at its starting position with the given velocity, the four
    /// walls, and a zeroed scoreboard.
    pub fn new(ball_velocity: Vec2) -> (w: World)
        requires
            -VEL_LIMIT <= ball_velocity.x <= VEL_LIMIT,
            -VEL_LIMIT <= ball_velocity.y <= VEL_LIMIT,
        ensures
            w.wf(),
            w.ball.pos.x == BALL_START_X,
            w.ball.pos.y == BALL_START_Y,
            w.ball.vel == ball_velocity,
            w.left_paddle.pos.y == 0,
            w.right_paddle.pos.y == 0,
            w.scoreboard.left_score == 0,
            w.scoreboard.right_score == 0,
    {
        let mut walls: Vec<Wall> = Vec::new();
        walls.push(Wall::new(WallLocation::Left));
        walls.push(Wall::new(WallLocation::Right));
        walls.push(Wall::new(WallLocation::Bottom));
        walls.push(Wall::new(WallLocation::Top));
        World {
            left_paddle: Paddle::new(Side::Left),
            right_paddle: Paddle::new(Side::Right),
            ball: Ball::new(ball_velocity),
            walls,
            scoreboard: Scoreboard::new(),
        }
    }

    /// One tick of motion for the left paddle from its player's key state.
    /// Mutates only that paddle's position.
    pub fn move_paddle_left(&mut self, up: bool, down: bool)
        requires
            old(self).wf(),
        ensures
            final(self).wf(),
            final(self).left_paddle.pos.y as int == moved_paddle_y(
                old(self).left_paddle.pos.y as int,
                up,
                down,
            ),
            final(self).left_paddle.pos.x == old(self).left_paddle.pos.x,
            final(self).left_paddle.side == old(self).left_paddle.side,
            final(self).left_paddle.size == old(self).left_paddle.size,
            final(self).right_paddle == old(self).right_paddle,
            final(self).ball == old(self).ball,
            final(self).walls == old(self).walls,
            final(self).scoreboard == old(self).scoreboard,
    {
        self.left_paddle.advance(up, down);
    }

    /// One tick of motion for the right paddle from its player's key
    /// state. Mutates only that paddle's position.
    pub fn move_paddle_right(&mut self, up: bool, down: bool)
        requires
            old(self).wf(),
        ensures
            final(self).wf(),
            final(self).right_paddle.pos.y as int == moved_paddle_y(
                old(self).right_paddle.pos.y as int,
                up,
                down,
            ),
            final(self).right_paddle.pos.x == old(self).right_paddle.pos.x,
            final(self).right_paddle.side == old(self).right_paddle.side,
            final(self).right_paddle.size == old(self).right_paddle.size,
            final(self).left_paddle == old(self).left_paddle,
            final(self).ball == old(self).ball,
            final(self).walls == old(self).walls,
            final(self).scoreboard == old(self).scoreboard,
    {
        self.right_paddle.advance(up, down);
    }

    /// Velocity integration: advance the ball by its velocity, each axis
    /// independently — one tick's worth of motion, since a velocity in
    /// world units per second equals subunits per tick. Runs before
    /// collision resolution so detection sees the post-move position.
    pub fn apply_velocity(&mut self)
        requires
            old(self).wf(),
            -COORD_LIMIT <= old(self).ball.pos.x + old(self).ball.vel.x <= COORD_LIMIT,
            -COORD_LIMIT <= old(self).ball.pos.y + old(self).ball.vel.y <= COORD_LIMIT,
        ensures
            final(self).wf(),
            final(self).ball.pos.x == old(self).ball.pos.x + old(self).ball.vel.x,
            final(self).ball.pos.y == old(self).ball.pos.y + old(self).ball.vel.y,
            final(self).ball.vel == old(self).ball.vel,
            final(self).ball.size == old(self).ball.size,
            final(self).left_paddle == old(self).left_paddle,
            final(self).right_paddle == old(self).right_paddle,
            final(self).walls == old(self).walls,
            final(self).scoreboard == old(self).scoreboard,
    {
        self.ball.pos.x = self.ball.pos.x + self.ball.vel.x;
        self.ball.pos.y = self.ball.pos.y + self.ball.vel.y;
    }

    /// Collision resolution: test the ball against every collider in the
    /// registry's order, emit one event per overlap, and reflect the
    /// velocity off each struck side as `all_resolved` says. The ball's
    /// position, the paddles, the walls and the scoreboard are untouched.
    pub fn check_for_collisions(&mut self) -> (events: Vec<CollisionEvent>)
        requires
            old(self).wf(),
        ensures
            final(self).wf(),
            (final(self).ball.vel.x as int, final(self).ball.vel.y as int) == all_resolved(
                old(self).ball.pos,
                old(self).ball.size,
                old(self).ball.vel.x as int,
                old(self).ball.vel.y as int,
                old(self).collider_boxes(),
            ),
            events@.len() == collision_count(
                old(self).ball.pos,
                old(self).ball.size,
                old(self).collider_boxes(),
            ),
            final(self).ball.pos == old(self).ball.pos,
            final(self).ball.size == old(self).ball.size,
            final(self).left_paddle == old(self).left_paddle,
            final(self).right_paddle == old(self).right_paddle,
            final(self).walls == old(self).walls,
            final(self).scoreboard == old(self).scoreboard,
    {
        let ball_pos = self.ball.pos;
        let ball_size = self.ball.size;
        let mut vel = self.ball.vel;
        let mut events: Vec<CollisionEvent> = Vec::new();
        let ghost cs = self.collider_boxes();
        let ghost v0x = self.ball.vel.x as int;
        let ghost v0y = self.ball.vel.y as int;

        proof {
            self.lemma_collider_boxes_bounded();
            assert(cs.take(0) =~= Seq::<Aabb>::empty());
        }

        let mut i: usize = 0;
        while i < 4
            invariant
                *self == *old(self),
                old(self).wf(),
                0 <= i <= 4,
                self.walls@.len() == 4,
                ball_pos == self.ball.pos,
                ball_size == self.ball.size,
                v0x == self.ball.vel.x as int,
                v0y == self.ball.vel.y as int,
                cs == self.collider_boxes(),
                cs.len() == 6,
                forall|j: int| 0 <= j < 6 ==> box_bounded(#[trigger] cs[j]),
                (vel.x as int, vel.y as int) == all_resolved(
                    ball_pos,
                    ball_size,
                    v0x,
                    v0y,
                    cs.take(i as int),
                ),
                events@.len() == collision_count(ball_pos, ball_size, cs.take(i as int)),
                vel.x as int == v0x || vel.x as int == -v0x,
                vel.y as int == v0y || vel.y as int == -v0y,
            decreases 4 - i,
        {
            let w = self.walls[i];
            proof {
                assert(cs[i as int] == self.walls@[i as int].collider_box());
            }
            vel = resolve_against_collider(
                ball_pos,
                ball_size,
                vel,
                Aabb { pos: w.pos, size: w.size },
                &mut events,
            );
            proof {
                assert(cs.take(i as int + 1).drop_last() =~= cs.take(i as int));
                assert(cs.take(i as int + 1).last() == cs[i as int]);
            }
            i = i + 1;
        }

        let lp = Aabb { pos: self.left_paddle.pos, size: self.left_paddle.size };
        proof {
            assert(cs[4] == self.left_paddle.collider_box());
        }
        vel = resolve_against_collider(ball_pos, ball_size, vel, lp, &mut events);
        proof {
            assert(cs.take(5).drop_last() =~= cs.take(4));
            assert(cs.take(5).last() == cs[4]);
            assert((vel.x as int, vel.y as int) == all_resolved(
                ball_pos,
                ball_size,
                v0x,
                v0y,
                cs.take(5),
            ));
            assert(events@.len() == collision_count(ball_pos, ball_size, cs.take(5)));
        }

        let rp = Aabb { pos: self.right_paddle.pos, size: self.right_paddle.size };
        proof {
            assert(cs[5] == self.right_paddle.collider_box());
        }
        vel = resolve_against_collider(ball_pos, ball_size, vel, rp, &mut events);
        proof {
            assert(cs.take(6).drop_last() =~= cs.take(5));
            assert(cs.take(6).last() == cs[5]);
            assert((vel.x as int, vel.y as int) == all_resolved(
                ball_pos,
                ball_size,
                v0x,
                v0y,
                cs.take(6),
            ));
            assert(events@.len() == collision_count(ball_pos, ball_size, cs.take(6)));
            assert(cs.take(6) =~= cs);
        }

        self.ball.vel = vel;
        events
    }

    /// One fixed tick, in the mandatory order: paddle motion for both
    /// players from the sampled key state, then velocity integration, then
    /// collision resolution. Returns the tick's collision events for any
    /// listener to drain.
    pub fn tick(
        &mut self,
        left_up: bool,
        left_down: bool,
        right_up: bool,
        right_down: bool,
    ) -> (events: Vec<CollisionEvent>)
        requires
            old(self).wf(),
            -COORD_LIMIT <= old(self).ball.pos.x + old(self).ball.vel.x <= COORD_LIMIT,
            -COORD_LIMIT <= old(self).ball.pos.y + old(self).ball.vel.y <= COORD_LIMIT,
        ensures
            final(self).wf(),
            final(self).left_paddle.pos.y as int == moved_paddle_y(
                old(self).left_paddle.pos.y as int,
                left_up,
                left_down,
            ),
            final(self).right_paddle.pos.y as int == moved_paddle_y(
                old(self).right_paddle.pos.y as int,
                right_up,
                right_down,
            ),
            final(self).left_paddle.pos.x == old(self).left_paddle.pos.x,
            final(self).right_paddle.pos.x == old(self).right_paddle.pos.x,
            final(self).left_paddle.side == old(self).left_paddle.side,
            final(self).right_paddle.side == old(self).right_paddle.side,
            final(self).left_paddle.size == old(self).left_paddle.size,
            final(self).right_paddle.size == old(self).right_paddle.size,
            final(self).ball.pos.x == old(self).ball.pos.x + old(self).ball.vel.x,
            final(self).ball.pos.y == old(self).ball.pos.y + old(self).ball.vel.y,
            final(self).ball.size == old(self).ball.size,
            (final(self).ball.vel.x as int, final(self).ball.vel.y as int) == all_resolved(
                final(self).ball.pos,
                final(self).ball.size,
                old(self).ball.vel.x as int,
                old(self).ball.vel.y as int,
                final(self).collider_boxes(),
            ),
            events@.len() == collision_count(
                final(self).ball.pos,
                final(self).ball.size,
                final(self).collider_boxes(),
            ),
            final(self).walls == old(self).walls,
            final(self).scoreboard == old(self).scoreboard,
    {
        self.move_paddle_left(left_up, left_down);
        self.move_paddle_right(right_up, right_down);
        self.apply_velocity();
        self.check_for_collisions()
    }
}

/// Where velocity integration alone puts a coordinate after a number of
/// ticks: one velocity step per tick.
pub open spec fn integrated_position(start: int, velocity: int, ticks: nat) -> int
    decreases ticks,
{
    if ticks == 0 {
        start
    } else {
        integrated_position(start, velocity, (ticks - 1) as nat) + velocity
    }
}

/// Integration determinism: with no collisions, running any number of
/// ticks from the same starting position and velocity lands exactly on
/// start plus velocity times the tick count — `apply_velocity` performs
/// one step of this recurrence per tick.
pub proof fn lemma_integration_deterministic(start: int, velocity: int, ticks: nat)
    ensures
        integrated_position(start, velocity, ticks) == start + velocity * ticks,
    decreases ticks,
{
    if ticks == 0 {
        assert(velocity * 0nat == 0) by (nonlinear_arith);
    } else {
        let t1 = (ticks - 1) as nat;
        lemma_integration_deterministic(start, velocity, t1);
        assert(velocity * (t1 + 1nat) == velocity * t1 + velocity) by (nonlinear_arith);
        assert(ticks == t1 + 1nat);
    }
}

} // verus!
