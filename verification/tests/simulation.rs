//! Tests of the world: setup, paddle motion, integration, collision
//! resolution over whole ticks, the scheduler and the scoreboard.

use pong::config::{
    BALL_HEIGHT, BALL_WIDTH, BOTTOM_WALL, HORIZONTAL_WALL_LENGTH, LEFT_WALL, PADDLE_HEIGHT,
    PADDLE_LOWER_BOUND, PADDLE_UPPER_BOUND, PADDLE_WIDTH, RIGHT_WALL, SIDE_WALL_LENGTH, TOP_WALL,
    WALL_THICKNESS,
};
use pong::entities::{CollisionEvent, WallLocation};
use pong::geometry::{collide, Collision, Vec2};
use pong::scheduler::ticks_due;
use pong::world::World;

fn v(x: i64, y: i64) -> Vec2 {
    Vec2 { x, y }
}

fn idle_tick(world: &mut World) -> Vec<CollisionEvent> {
    world.tick(false, false, false, false)
}

#[test]
fn setup_matches_the_arena_constants() {
    let world = World::new(v(282, -282));

    assert_eq!(world.ball.pos, v(0, -3000));
    assert_eq!(world.ball.size, v(BALL_WIDTH, BALL_HEIGHT));
    assert_eq!(world.ball.vel, v(282, -282));

    assert_eq!(world.left_paddle.pos, v(-23400, 0));
    assert_eq!(world.right_paddle.pos, v(23400, 0));
    assert_eq!(world.left_paddle.size, v(PADDLE_WIDTH, PADDLE_HEIGHT));
    assert_eq!(world.right_paddle.size, v(PADDLE_WIDTH, PADDLE_HEIGHT));

    assert_eq!(world.walls.len(), 4);
    assert_eq!(world.walls[0].pos, v(LEFT_WALL, 0));
    assert_eq!(world.walls[1].pos, v(RIGHT_WALL, 0));
    assert_eq!(world.walls[2].pos, v(0, BOTTOM_WALL));
    assert_eq!(world.walls[3].pos, v(0, TOP_WALL));
    assert_eq!(world.walls[0].size, v(WALL_THICKNESS, SIDE_WALL_LENGTH));
    assert_eq!(world.walls[2].size, v(HORIZONTAL_WALL_LENGTH, WALL_THICKNESS));

    assert_eq!(world.scoreboard.left_score, 0);
    assert_eq!(world.scoreboard.right_score, 0);
}

#[test]
fn wall_builder_covers_every_location() {
    assert_eq!(WallLocation::Left.position(), v(LEFT_WALL, 0));
    assert_eq!(WallLocation::Right.position(), v(RIGHT_WALL, 0));
    assert_eq!(WallLocation::Bottom.position(), v(0, BOTTOM_WALL));
    assert_eq!(WallLocation::Top.position(), v(0, TOP_WALL));
    assert_eq!(WallLocation::Left.size(), v(WALL_THICKNESS, SIDE_WALL_LENGTH));
    assert_eq!(WallLocation::Right.size(), v(WALL_THICKNESS, SIDE_WALL_LENGTH));
    assert_eq!(WallLocation::Bottom.size(), v(HORIZONTAL_WALL_LENGTH, WALL_THICKNESS));
    assert_eq!(WallLocation::Top.size(), v(HORIZONTAL_WALL_LENGTH, WALL_THICKNESS));
}

#[test]
fn paddle_held_at_upper_bound_stops_moving() {
    let mut world = World::new(v(0, 0));
    // 500 subunits per tick from y = 0: 27 ticks reach the bound exactly.
    for _ in 0..27 {
        world.tick(true, false, false, false);
    }
    assert_eq!(world.left_paddle.pos.y, PADDLE_UPPER_BOUND);
    // Holding the up key at the bound changes nothing tick to tick.
    world.tick(true, false, false, false);
    assert_eq!(world.left_paddle.pos.y, PADDLE_UPPER_BOUND);
    world.tick(true, false, false, false);
    assert_eq!(world.left_paddle.pos.y, PADDLE_UPPER_BOUND);
}

#[test]
fn paddle_clamps_at_lower_bound() {
    let mut world = World::new(v(0, 0));
    for _ in 0..100 {
        world.tick(false, false, false, true);
    }
    assert_eq!(world.right_paddle.pos.y, PADDLE_LOWER_BOUND);
    assert!(PADDLE_LOWER_BOUND <= world.right_paddle.pos.y);
    assert!(world.right_paddle.pos.y <= PADDLE_UPPER_BOUND);
}

#[test]
fn paddle_stays_in_bounds_under_arbitrary_inputs() {
    let mut world = World::new(v(0, 0));
    // A deterministic but irregular input pattern for both paddles.
    for i in 0..500u32 {
        let up = i % 3 == 0;
        let down = i % 7 < 3;
        world.tick(up, down, down, up);
        assert!(PADDLE_LOWER_BOUND <= world.left_paddle.pos.y);
        assert!(world.left_paddle.pos.y <= PADDLE_UPPER_BOUND);
        assert!(PADDLE_LOWER_BOUND <= world.right_paddle.pos.y);
        assert!(world.right_paddle.pos.y <= PADDLE_UPPER_BOUND);
    }
}

#[test]
fn opposing_keys_cancel() {
    let mut world = World::new(v(0, 0));
    world.tick(true, true, true, true);
    assert_eq!(world.left_paddle.pos.y, 0);
    assert_eq!(world.right_paddle.pos.y, 0);
}

#[test]
fn integration_matches_the_closed_form() {
    let mut world = World::new(v(7, 11));
    for _ in 0..100 {
        let events = idle_tick(&mut world);
        assert!(events.is_empty());
    }
    // position = start + velocity × ticks, exactly.
    assert_eq!(world.ball.pos, v(7 * 100, -3000 + 11 * 100));
    assert_eq!(world.ball.vel, v(7, 11));
}

#[test]
fn ball_bounces_off_the_bottom_wall() {
    let mut world = World::new(v(0, -400));
    // 34 ticks fall free of the wall ...
    for _ in 0..34 {
        let events = idle_tick(&mut world);
        assert!(events.is_empty());
    }
    assert_eq!(world.ball.pos, v(0, -16600));
    // ... and on the 35th the ball overlaps the bottom wall: the primitive
    // reports the wall's top side and the y velocity flips to positive.
    let events = idle_tick(&mut world);
    assert_eq!(events.len(), 1);
    assert_eq!(world.ball.pos, v(0, -17000));
    assert_eq!(
        collide(world.ball.pos, world.ball.size, world.walls[2].pos, world.walls[2].size),
        Some(Collision::Top)
    );
    assert_eq!(world.ball.vel, v(0, 400));
    // The next tick moves the ball back out with no further event.
    let events = idle_tick(&mut world);
    assert!(events.is_empty());
    assert_eq!(world.ball.vel, v(0, 400));
}

#[test]
fn lingering_overlap_does_not_double_flip() {
    let mut world = World::new(v(0, 0));
    // A slow ball just above the bottom wall keeps overlapping it for two
    // consecutive ticks.
    world.ball.pos = v(0, -16900);
    world.ball.vel = v(0, -10);

    let events = idle_tick(&mut world);
    assert_eq!(events.len(), 1);
    assert_eq!(world.ball.pos, v(0, -16910));
    assert_eq!(world.ball.vel, v(0, 10));

    // Still overlapping, still reported — but the velocity, already moving
    // away, is not flipped back into the wall.
    let events = idle_tick(&mut world);
    assert_eq!(events.len(), 1);
    assert_eq!(world.ball.pos, v(0, -16900));
    assert_eq!(world.ball.vel, v(0, 10));
}

#[test]
fn ball_bounces_off_a_paddle() {
    let mut world = World::new(v(0, 0));
    world.ball.pos = v(-22000, 0);
    world.ball.vel = v(-400, 0);

    let events = idle_tick(&mut world);
    assert_eq!(events.len(), 1);
    assert_eq!(world.ball.pos, v(-22400, 0));
    assert_eq!(world.ball.vel, v(400, 0));
}

#[test]
fn paddle_motion_precedes_collision_testing() {
    // The ball hangs just out of reach above the left paddle; only if the
    // paddle's move this tick is visible to collision testing does the
    // pair overlap and emit an event.
    let mut world = World::new(v(0, 0));
    world.ball.pos = v(-23400, 4700);
    world.ball.vel = v(0, 0);
    let events = idle_tick(&mut world);
    assert!(events.is_empty());

    let mut world = World::new(v(0, 0));
    world.ball.pos = v(-23400, 4700);
    world.ball.vel = v(0, 0);
    let events = world.tick(true, false, false, false);
    assert_eq!(events.len(), 1);
}

#[test]
fn scheduler_splits_time_into_whole_ticks() {
    assert_eq!(ticks_due(5, 40, 16), (2, 13));
    assert_eq!(ticks_due(0, 10, 16), (0, 10));
    assert_eq!(ticks_due(15, 1, 16), (1, 0));
    assert_eq!(ticks_due(0, 0, 16), (0, 0));
    // A long frame runs several ticks at once.
    assert_eq!(ticks_due(3, 100, 16), (6, 7));
}

#[test]
fn scoreboard_counts_each_side() {
    let mut world = World::new(v(0, 0));
    world.scoreboard.increment_left();
    world.scoreboard.increment_left();
    world.scoreboard.increment_right();
    assert_eq!(world.scoreboard.left_score, 2);
    assert_eq!(world.scoreboard.right_score, 1);
}

#[test]
fn collision_events_are_default_constructed() {
    assert_eq!(CollisionEvent::default(), CollisionEvent);
}
