//! Tests of the collision primitive and the velocity reflection.

use pong::geometry::{collide, Collision, Vec2};
use pong::collision::resolve_velocity;

fn v(x: i64, y: i64) -> Vec2 {
    Vec2 { x, y }
}

#[test]
fn no_overlap_is_symmetric() {
    let a_pos = v(100, 0);
    let a_size = v(2, 2);
    let b_pos = v(0, 0);
    let b_size = v(10, 10);
    assert_eq!(collide(a_pos, a_size, b_pos, b_size), None);
    assert_eq!(collide(b_pos, b_size, a_pos, a_size), None);

    let far = v(-50, 80);
    assert_eq!(collide(far, a_size, b_pos, b_size), None);
    assert_eq!(collide(b_pos, b_size, far, a_size), None);
}

#[test]
fn touching_edges_do_not_collide() {
    // The boxes share the x = 6 edge exactly: overlap must be strict.
    let a_pos = v(8, 0);
    let a_size = v(4, 4);
    let b_pos = v(0, 0);
    let b_size = v(12, 12);
    assert_eq!(collide(a_pos, a_size, b_pos, b_size), None);
    assert_eq!(collide(b_pos, b_size, a_pos, a_size), None);
}

#[test]
fn strikes_left_side() {
    // The probe overlaps only the low x edge of the target.
    let r = collide(v(-6, 0), v(4, 4), v(0, 0), v(10, 10));
    assert_eq!(r, Some(Collision::Left));
}

#[test]
fn strikes_right_side() {
    let r = collide(v(6, 0), v(4, 4), v(0, 0), v(10, 10));
    assert_eq!(r, Some(Collision::Right));
}

#[test]
fn strikes_top_side() {
    let r = collide(v(0, 6), v(4, 4), v(0, 0), v(10, 10));
    assert_eq!(r, Some(Collision::Top));
}

#[test]
fn strikes_bottom_side() {
    let r = collide(v(0, -6), v(4, 4), v(0, 0), v(10, 10));
    assert_eq!(r, Some(Collision::Bottom));
}

#[test]
fn probe_inside_target_is_inside() {
    let r = collide(v(1, -1), v(2, 2), v(0, 0), v(10, 10));
    assert_eq!(r, Some(Collision::Inside));
}

#[test]
fn smaller_penetration_picks_the_axis() {
    // x penetration 2, y penetration 1: the y side is struck.
    let r = collide(v(5, 6), v(4, 4), v(0, 0), v(10, 10));
    assert_eq!(r, Some(Collision::Top));
    // Mirrored: y penetration 2, x penetration 1.
    let r = collide(v(6, 5), v(4, 4), v(0, 0), v(10, 10));
    assert_eq!(r, Some(Collision::Right));
}

#[test]
fn corner_tie_breaks_to_x_axis() {
    // Both penetrations are exactly equal: the x side wins, so exactly
    // one axis reflects, deterministically.
    let r = collide(v(6, 6), v(4, 4), v(0, 0), v(10, 10));
    assert_eq!(r, Some(Collision::Right));
    let reflected = resolve_velocity(v(-3, -3), Collision::Right);
    assert_eq!(reflected, v(3, -3));
}

#[test]
fn reflection_conserves_speed() {
    let before = v(-3, 4);
    for side in [
        Collision::Left,
        Collision::Right,
        Collision::Top,
        Collision::Bottom,
        Collision::Inside,
    ] {
        let after = resolve_velocity(before, side);
        assert_eq!(
            after.x * after.x + after.y * after.y,
            before.x * before.x + before.y * before.y
        );
    }
}

#[test]
fn reflects_only_when_moving_into_the_obstacle() {
    // Moving away from a left-side obstacle: nothing flips.
    assert_eq!(resolve_velocity(v(-3, 4), Collision::Left), v(-3, 4));
    // Moving into it: x flips, y stays.
    assert_eq!(resolve_velocity(v(3, 4), Collision::Left), v(-3, 4));
    assert_eq!(resolve_velocity(v(-3, 4), Collision::Right), v(3, 4));
    assert_eq!(resolve_velocity(v(3, -4), Collision::Top), v(3, 4));
    assert_eq!(resolve_velocity(v(3, 4), Collision::Bottom), v(3, -4));
    assert_eq!(resolve_velocity(v(3, 4), Collision::Inside), v(3, 4));
}

#[test]
fn resolving_twice_does_not_double_flip() {
    for side in [
        Collision::Left,
        Collision::Right,
        Collision::Top,
        Collision::Bottom,
        Collision::Inside,
    ] {
        let once = resolve_velocity(v(5, -7), side);
        let twice = resolve_velocity(once, side);
        assert_eq!(once, twice);
    }
}
