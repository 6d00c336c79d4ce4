//! The computer opponent's control policy: a fixed-step tracking rule that
//! drifts toward the vertical center while the ball moves away and chases
//! the ball's center while it approaches.

use vstd::prelude::*;
use crate::ball::Ball;
use crate::paddle::{lemma_logical_product_bounds, Paddle};
use crate::units::{div_pos, spec_clamp, DISP_LIMIT, MAX_DIM, MAX_FRAME_MS, SCALE_LIMIT,
    SPEED_LIMIT};

verus! {

/// Per-frame displacement of the computer paddle: frame time (milliseconds)
/// times paddle speed times scale, brought back to subunits.
pub open spec fn spec_disp(frame_ms: int, speed: int, scale: int) -> int {
    frame_ms * speed * scale / 1_000_000
}

/// Compute the per-frame displacement of the computer paddle.
pub fn displacement(frame_ms: i64, speed: i64, scale: i64) -> (d: i64)
    requires
        0 <= frame_ms <= MAX_FRAME_MS,
        0 <= speed <= SPEED_LIMIT,
        0 <= scale <= SCALE_LIMIT,
    ensures
        d == spec_disp(frame_ms as int, speed as int, scale as int),
        0 <= d <= DISP_LIMIT,
{
    proof {
        assert(0 <= frame_ms * speed <= MAX_FRAME_MS as int * SPEED_LIMIT as int)
            by (nonlinear_arith)
            requires
                0 <= frame_ms <= MAX_FRAME_MS,
                0 <= speed <= SPEED_LIMIT,
        ;
        assert(0 <= frame_ms * speed * scale <= MAX_FRAME_MS as int * SPEED_LIMIT as int
            * SCALE_LIMIT as int) by (nonlinear_arith)
            requires
                0 <= frame_ms <= MAX_FRAME_MS,
                0 <= speed <= SPEED_LIMIT,
                0 <= scale <= SCALE_LIMIT,
        ;
        assert(frame_ms * speed * scale / 1_000_000 <= DISP_LIMIT) by (nonlinear_arith)
            requires
                0 <= frame_ms * speed * scale <= MAX_FRAME_MS as int * SPEED_LIMIT as int
                    * SCALE_LIMIT as int,
        ;
    }
    let product: i64 = frame_ms * speed * scale;
    div_pos(product, 1_000_000)
}

/// The computer paddle's vertical position after one policy step. While the
/// ball moves toward the human side (`vx < 0`) the paddle drifts back
/// toward mid-height, clamped so the drift cannot carry its center past the
/// middle; otherwise it steps toward the ball's vertical center. Tracking
/// is immediate — any difference between the centers moves the paddle, with
/// no dead zone — and fixed-step: the paddle moves by the whole
/// displacement and may overshoot by up to one displacement per frame.
/// Each branch keeps its own clamp bounds, including the looser upper
/// bound (the full height) on the upward chase.
pub open spec fn spec_opponent_y(c: Paddle, b: Ball, disp: int, off_y: int, height: int,
    scale: int) -> int {
    let c_center = Paddle::spec_center_y(c.y as int, c.length as int, scale);
    let b_center = Ball::spec_center_y(b.y as int, b.size as int, scale);
    if b.vx < 0 {
        if c_center < height / 2 {
            spec_clamp(c.y + disp, off_y, height / 2 - c.length * scale / 2)
        } else if c_center > height / 2 {
            spec_clamp(c.y - disp, off_y, height - c.length * scale / 2)
        } else {
            c.y as int
        }
    } else {
        if c_center > b_center {
            spec_clamp(c.y - disp, off_y, height as int)
        } else if b_center > c_center {
            spec_clamp(c.y + disp, off_y, height - c.length * scale / 2)
        } else {
            c.y as int
        }
    }
}

/// Apply one policy step to the computer paddle.
pub fn drive(c: &mut Paddle, b: &Ball, disp: i64, off_y: i64, height: i64, scale: i64)
    requires
        old(c).wf(),
        b.wf(),
        0 <= disp <= DISP_LIMIT,
        0 <= off_y <= MAX_DIM,
        0 <= height <= MAX_DIM,
        0 <= scale <= SCALE_LIMIT,
    ensures
        final(c).y == spec_opponent_y(*old(c), *b, disp as int, off_y as int, height as int,
            scale as int),
        final(c).x == old(c).x,
        final(c).length == old(c).length,
        final(c).width == old(c).width,
        final(c).speed == old(c).speed,
        final(c).wf(),
{
    proof {
        lemma_logical_product_bounds(old(c).length as int, scale as int);
    }
    let half_len = div_pos(c.length * scale, 2);
    let half_h = div_pos(height, 2);
    let c_center = c.center(scale).1;
    if b.vx < 0 {
        if c_center < half_h {
            c.move_by(disp, off_y, half_h - half_len);
        } else if c_center > half_h {
            c.move_by(-disp, off_y, height - half_len);
        }
    } else {
        let b_center = b.center(scale).1;
        if c_center > b_center {
            c.move_by(-disp, off_y, height);
        } else if b_center > c_center {
            c.move_by(disp, off_y, height - half_len);
        }
    }
}

} // verus!
