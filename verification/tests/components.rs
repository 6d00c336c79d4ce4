//! Component-level checks: rectangle intersection, paddle movement and
//! centers, ball spawn, bounds classification, bounces, and the opponent
//! policy's displacement formula.

use pong_core::ball::{bounce_vx, Ball, OutOfBounds, BALL_SPEED};
use pong_core::geom::{intersects, Rect};
use pong_core::opponent::{displacement, drive};
use pong_core::paddle::Paddle;
use pong_core::units::clamp;

fn rect(x: i64, y: i64, w: i64, h: i64) -> Rect {
    Rect { x, y, w, h }
}

fn paddle_at(x: i64, y: i64) -> Paddle {
    Paddle { length: 6, width: 1, speed: 10_000, x, y }
}

#[test]
fn intersects_overlapping_pair() {
    let a = rect(0, 0, 10_000, 10_000);
    let b = rect(5_000, 5_000, 10_000, 10_000);
    assert!(intersects(a, b));
    assert!(intersects(b, a));
}

#[test]
fn intersects_disjoint_pair() {
    let a = rect(0, 0, 10_000, 10_000);
    let b = rect(20_000, 0, 10_000, 10_000);
    assert!(!intersects(a, b));
    assert!(!intersects(b, a));
}

#[test]
fn intersects_shared_edge_is_not_a_hit() {
    let a = rect(0, 0, 10_000, 10_000);
    let b = rect(10_000, 0, 10_000, 10_000);
    assert!(!intersects(a, b));
    assert!(!intersects(b, a));
}

#[test]
fn intersects_shared_corner_is_not_a_hit() {
    let a = rect(0, 0, 10_000, 10_000);
    let b = rect(10_000, 10_000, 10_000, 10_000);
    assert!(!intersects(a, b));
    assert!(!intersects(b, a));
}

#[test]
fn intersects_zero_area_rectangle_never_hits() {
    let a = rect(0, 0, 0, 10_000);
    let b = rect(-5_000, 0, 10_000, 10_000);
    assert!(!intersects(a, b));
    assert!(!intersects(b, a));
}

#[test]
fn clamp_picks_value_and_bounds() {
    assert_eq!(clamp(5, 0, 10), 5);
    assert_eq!(clamp(-5, 0, 10), 0);
    assert_eq!(clamp(15, 0, 10), 10);
}

#[test]
fn move_by_within_range() {
    let mut p = paddle_at(10_000, 50_000);
    p.move_by(7_000, 0, 240_000);
    assert_eq!(p.y, 57_000);
    assert_eq!(p.x, 10_000);
}

#[test]
fn move_by_clamps_far_delta_to_bottom() {
    let mut p = paddle_at(10_000, 50_000);
    p.move_by(9_000_000_000, 0, 240_000);
    assert_eq!(p.y, 240_000);
}

#[test]
fn move_by_clamps_far_delta_to_top() {
    let mut p = paddle_at(10_000, 50_000);
    p.move_by(-9_000_000_000, 20_000, 240_000);
    assert_eq!(p.y, 20_000);
}

#[test]
fn paddle_center_formula() {
    let p = paddle_at(10_000, 50_000);
    // scale 10_000: width 1 -> 10_000 wide, length 6 -> 60_000 tall
    let c = p.center(10_000);
    assert_eq!(c.0, 15_000);
    assert_eq!(c.1, 80_000);
}

#[test]
fn ball_center_formula() {
    let b = Ball { vx: 5_000, vy: 0, x: 100_000, y: 40_000, size: 1 };
    let c = b.center(10_000);
    assert_eq!(c.0, 105_000);
    assert_eq!(c.1, 45_000);
}

#[test]
fn spawn_speeds_and_position() {
    for _ in 0..32 {
        let b = Ball::spawn(300_000, 150_000);
        assert_eq!(b.x, 300_000);
        assert_eq!(b.y, 150_000);
        assert_eq!(b.size, 1);
        assert!(b.vx == BALL_SPEED || b.vx == -BALL_SPEED);
        assert!(-BALL_SPEED <= b.vy && b.vy <= BALL_SPEED);
    }
}

#[test]
fn out_of_bounds_classification() {
    let field = rect(0, 0, 600_000, 320_000);
    let scale = 10_000;
    let inside = Ball { vx: 5_000, vy: 0, x: 300_000, y: 100_000, size: 1 };
    assert_eq!(inside.out_of_bounds(field, scale), OutOfBounds::Inside);
    let left = Ball { vx: -5_000, vy: 0, x: -15_000, y: 100_000, size: 1 };
    assert_eq!(left.out_of_bounds(field, scale), OutOfBounds::Left);
    let right = Ball { vx: 5_000, vy: 0, x: 595_000, y: 100_000, size: 1 };
    assert_eq!(right.out_of_bounds(field, scale), OutOfBounds::Right);
}

#[test]
fn bounce_grows_speed_five_percent_and_flips_sign() {
    assert_eq!(bounce_vx(5_000), -5_250);
    assert_eq!(bounce_vx(-5_000), 5_250);
    // the fixed-point floor: 5_250 * 21 / 20 = 5_512.5 rounds down
    assert_eq!(bounce_vx(-5_250), 5_512);
}

#[test]
fn advance_wall_bounce_keeps_vy_magnitude() {
    let field = rect(0, 0, 600_000, 320_000);
    let scale = 10_000;
    let human = paddle_at(10_000, 130_000);
    let computer = paddle_at(580_000, 130_000);
    let mut b = Ball { vx: 5_000, vy: -4_000, x: 300_000, y: 2_000, size: 1 };
    b.advance(field, &human, &computer, scale);
    // candidate y = -2_000 crosses the top edge: clamped and inverted
    assert_eq!(b.y, 0);
    assert_eq!(b.vy, 4_000);
    assert_eq!(b.x, 305_000);
    assert_eq!(b.vx, 5_000);
}

#[test]
fn advance_bottom_bounce() {
    let field = rect(0, 0, 600_000, 320_000);
    let scale = 10_000;
    let human = paddle_at(10_000, 130_000);
    let computer = paddle_at(580_000, 130_000);
    let mut b = Ball { vx: 5_000, vy: 4_000, x: 300_000, y: 308_000, size: 1 };
    b.advance(field, &human, &computer, scale);
    // candidate bottom edge 322_000 crosses 320_000: clamped and inverted
    assert_eq!(b.y, 310_000);
    assert_eq!(b.vy, -4_000);
}

#[test]
fn advance_human_paddle_bounce() {
    let field = rect(0, 0, 600_000, 320_000);
    let scale = 10_000;
    let human = paddle_at(10_000, 100_000);
    let computer = paddle_at(580_000, 130_000);
    let mut b = Ball { vx: -5_000, vy: 0, x: 20_000, y: 120_000, size: 1 };
    b.advance(field, &human, &computer, scale);
    // snapped to the human paddle's far edge, sign flipped, five percent faster
    assert_eq!(b.x, 20_000);
    assert_eq!(b.vx, 5_250);
    assert_eq!(b.y, 120_000);
    assert_eq!(b.vy, 0);
}

#[test]
fn advance_computer_paddle_bounce() {
    let field = rect(0, 0, 600_000, 320_000);
    let scale = 10_000;
    let human = paddle_at(10_000, 100_000);
    let computer = paddle_at(580_000, 100_000);
    let mut b = Ball { vx: 5_000, vy: 0, x: 572_000, y: 120_000, size: 1 };
    b.advance(field, &human, &computer, scale);
    // snapped to the computer paddle's near edge less the ball's size
    assert_eq!(b.x, 570_000);
    assert_eq!(b.vx, -5_250);
}

#[test]
fn advance_without_collision_adds_velocity() {
    let field = rect(0, 0, 600_000, 320_000);
    let scale = 10_000;
    let human = paddle_at(10_000, 100_000);
    let computer = paddle_at(580_000, 100_000);
    let mut b = Ball { vx: 5_000, vy: 3_000, x: 300_000, y: 100_000, size: 1 };
    b.advance(field, &human, &computer, scale);
    assert_eq!(b.x, 305_000);
    assert_eq!(b.y, 103_000);
    assert_eq!(b.vx, 5_000);
    assert_eq!(b.vy, 3_000);
}

#[test]
fn displacement_formula() {
    // 16 ms at speed 10_000 and scale 9_375: 1.5 pixels per frame
    assert_eq!(displacement(16, 10_000, 9_375), 1_500);
    assert_eq!(displacement(0, 10_000, 9_375), 0);
}

#[test]
fn opponent_chases_ball_when_approaching() {
    let mut c = paddle_at(580_000, 100_000);
    // ball below the paddle's center, moving toward the computer
    let b = Ball { vx: 5_000, vy: 0, x: 300_000, y: 200_000, size: 1 };
    drive(&mut c, &b, 1_500, 0, 320_000, 10_000);
    assert_eq!(c.y, 101_500);
}

#[test]
fn opponent_retreats_up_when_ball_above() {
    let mut c = paddle_at(580_000, 200_000);
    let b = Ball { vx: 5_000, vy: 0, x: 300_000, y: 100_000, size: 1 };
    drive(&mut c, &b, 1_500, 0, 320_000, 10_000);
    assert_eq!(c.y, 198_500);
}

#[test]
fn opponent_drifts_to_center_when_ball_leaves() {
    // ball moving away: the paddle drifts toward mid-height from above
    let mut c = paddle_at(580_000, 20_000);
    let b = Ball { vx: -5_000, vy: 0, x: 300_000, y: 100_000, size: 1 };
    drive(&mut c, &b, 1_500, 0, 320_000, 10_000);
    assert_eq!(c.y, 21_500);
    // and upward toward the middle when its center sits below it
    let mut d = paddle_at(580_000, 250_000);
    drive(&mut d, &b, 1_500, 0, 320_000, 10_000);
    assert_eq!(d.y, 248_500);
}
