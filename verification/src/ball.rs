//! The ball: spawn with a randomized direction, bounds classification, and
//! the per-frame trajectory step with wall and paddle bounces.

use vstd::prelude::*;
use crate::geom::{field_wf, intersects, overlaps, Rect};
use crate::paddle::{lemma_logical_product_bounds, Paddle};
use crate::units::{div_pos, mag, POS_LIMIT, SCALE_LIMIT, VEL_LIMIT};

verus! {

/// Horizontal speed of a freshly spawned ball, in subunits per frame; also
/// the largest vertical speed a spawn can draw.
pub const BALL_SPEED: i64 = 5000;

/// Where the ball stands relative to the field's horizontal extent: past the
/// left edge, past the right edge, or inside.
#[derive(Clone, Copy, PartialEq, Eq, Structural, Debug)]
pub enum OutOfBounds {
    Left,
    Right,
    Inside,
}

/// The ball: velocity and top-left position in subunits, size in logical
/// units (always one).
#[derive(Clone, Copy, PartialEq, Eq, Structural, Debug)]
pub struct Ball {
    pub vx: i64,
    pub vy: i64,
    pub x: i64,
    pub y: i64,
    pub size: i64,
}

/// Relies on rand::random: each call draws a fresh value from the
/// thread-local generator, which the process seeds once at startup; nothing
/// is assumed of the result.
pub assume_specification<T>[ rand::random::<T> ]() -> (r: T)
    where
        rand::distributions::Standard: rand::distributions::Distribution<T>,
;

/// What every spawn establishes: the given position, unit size, horizontal
/// speed of exactly `BALL_SPEED` with either sign, and vertical speed of at
/// most `BALL_SPEED` in magnitude, either sign.
pub open spec fn spawned(b: Ball, x: int, y: int) -> bool {
    &&& b.x == x
    &&& b.y == y
    &&& b.size == 1
    &&& (b.vx == BALL_SPEED || b.vx == -BALL_SPEED)
    &&& -BALL_SPEED <= b.vy <= BALL_SPEED
}

/// Magnitude of the horizontal velocity after a paddle bounce: grown by the
/// ratio 21 to 20 (five percent, floored), saturating at `VEL_LIMIT` so
/// that positions stay in range.
pub open spec fn spec_bounce_mag(m: int) -> int {
    if m * 21 / 20 > VEL_LIMIT {
        VEL_LIMIT as int
    } else {
        m * 21 / 20
    }
}

/// Horizontal velocity after a paddle bounce: sign flipped, magnitude grown
/// by five percent.
pub open spec fn spec_bounced_vx(vx: int) -> int {
    if vx > 0 {
        -spec_bounce_mag(vx)
    } else {
        spec_bounce_mag(-vx)
    }
}

impl Ball {
    /// Bounds under which every ball computation stays in range.
    pub open spec fn wf(self) -> bool {
        &&& -VEL_LIMIT <= self.vx <= VEL_LIMIT
        &&& -VEL_LIMIT <= self.vy <= VEL_LIMIT
        &&& -POS_LIMIT <= self.x <= POS_LIMIT
        &&& -POS_LIMIT <= self.y <= POS_LIMIT
        &&& self.size == 1
    }

    /// A new ball at the given position. The horizontal direction is a coin
    /// flip at speed `BALL_SPEED`; the vertical speed is `BALL_SPEED` times
    /// a uniform draw from the unit interval (in thousandths), with an
    /// independently flipped sign.
    pub fn spawn(x: i64, y: i64) -> (b: Ball)
        requires
            -POS_LIMIT <= x <= POS_LIMIT,
            -POS_LIMIT <= y <= POS_LIMIT,
        ensures
            spawned(b, x as int, y as int),
            b.wf(),
    {
        let flip_x: u16 = rand::random::<u16>();
        let vx: i64 = if flip_x >= 32768 { -BALL_SPEED } else { BALL_SPEED };
        let draw: u16 = rand::random::<u16>();
        let millis: i64 = (draw % 1001) as i64;
        let vy_mag: i64 = div_pos(BALL_SPEED * millis, 1000);
        proof {
            assert(0 <= BALL_SPEED * millis / 1000 <= BALL_SPEED) by (nonlinear_arith)
                requires
                    0 <= millis <= 1000,
            ;
        }
        let flip_y: u16 = rand::random::<u16>();
        let vy: i64 = if flip_y >= 32768 { vy_mag } else { -vy_mag };
        Ball { vx, vy, x, y, size: 1 }
    }

    /// The vertical center of the ball at the given scale.
    pub open spec fn spec_center_y(y: int, size: int, scale: int) -> int {
        y + size * scale / 2
    }

    /// The ball's geometric center in pixel space at the given scale.
    pub fn center(&self, scale: i64) -> (c: (i64, i64))
        requires
            self.wf(),
            0 <= scale <= SCALE_LIMIT,
        ensures
            c.0 == self.x + self.size * scale / 2,
            c.1 == Self::spec_center_y(self.y as int, self.size as int, scale as int),
    {
        proof {
            lemma_logical_product_bounds(self.size as int, scale as int);
        }
        let half = div_pos(self.size * scale, 2);
        (self.x + half, self.y + half)
    }

    /// Where the ball stands relative to the field: its right edge past the
    /// field's left edge means `Left`, past the field's right edge means
    /// `Right`, otherwise `Inside`.
    pub open spec fn spec_out_of_bounds(self, field: Rect, scale: int) -> OutOfBounds {
        if self.x + self.size * scale < field.x {
            OutOfBounds::Left
        } else if self.x + self.size * scale > field.x + field.w {
            OutOfBounds::Right
        } else {
            OutOfBounds::Inside
        }
    }

    /// Classify the ball against the field's horizontal extent.
    pub fn out_of_bounds(&self, field: Rect, scale: i64) -> (r: OutOfBounds)
        requires
            self.wf(),
            field_wf(field),
            0 <= scale <= SCALE_LIMIT,
        ensures
            r == self.spec_out_of_bounds(field, scale as int),
    {
        proof {
            lemma_logical_product_bounds(self.size as int, scale as int);
        }
        let right_edge = self.x + self.size * scale;
        if right_edge < field.x {
            OutOfBounds::Left
        } else if right_edge > field.x + field.w {
            OutOfBounds::Right
        } else {
            OutOfBounds::Inside
        }
    }

    /// Vertical position after the step: the candidate `y + vy`, clamped to
    /// the top edge or to the bottom edge (less the ball's pixel size) when
    /// the candidate crosses one of them.
    pub open spec fn spec_y_after(self, field: Rect, scale: int) -> int {
        if self.y + self.vy < field.y {
            field.y as int
        } else if self.y + self.vy + self.size * scale > field.h {
            field.h - self.size * scale
        } else {
            self.y + self.vy
        }
    }

    /// Vertical velocity after the step: inverted exactly when the candidate
    /// crosses the top or bottom edge, unchanged otherwise.
    pub open spec fn spec_vy_after(self, field: Rect, scale: int) -> int {
        if self.y + self.vy < field.y {
            -self.vy
        } else if self.y + self.vy + self.size * scale > field.h {
            -self.vy
        } else {
            self.vy as int
        }
    }

    /// Whether the ball's candidate rectangle for this step overlaps the
    /// given paddle's rectangle.
    pub open spec fn spec_hits(self, p: Paddle, field: Rect, scale: int) -> bool {
        overlaps(
            self.x + self.vx,
            self.spec_y_after(field, scale),
            self.size * scale,
            self.size * scale,
            p.x as int,
            p.y as int,
            p.width * scale,
            p.length * scale,
        )
    }

    /// Horizontal position after the step: snapped just outside the far edge
    /// of the human paddle, or the near edge of the computer paddle, when
    /// the candidate rectangle hits one (the human paddle is tested first);
    /// the unmodified candidate otherwise.
    pub open spec fn spec_x_after(self, field: Rect, human: Paddle, computer: Paddle,
        scale: int) -> int {
        if self.spec_hits(human, field, scale) {
            human.x + human.width * scale
        } else if self.spec_hits(computer, field, scale) {
            computer.x - self.size * scale
        } else {
            self.x + self.vx
        }
    }

    /// Horizontal velocity after the step: a paddle bounce on either paddle,
    /// unchanged otherwise.
    pub open spec fn spec_vx_after(self, field: Rect, human: Paddle, computer: Paddle,
        scale: int) -> int {
        if self.spec_hits(human, field, scale) || self.spec_hits(computer, field, scale) {
            spec_bounced_vx(self.vx as int)
        } else {
            self.vx as int
        }
    }

    /// Advance the ball one frame: add the velocity, resolve a top or bottom
    /// wall crossing by clamping and inverting `vy`, then resolve at most
    /// one paddle hit by snapping `x` outside the paddle and flipping and
    /// growing `vx`.
    pub fn advance(&mut self, field: Rect, human: &Paddle, computer: &Paddle, scale: i64)
        requires
            old(self).wf(),
            human.wf(),
            computer.wf(),
            field_wf(field),
            0 <= scale <= SCALE_LIMIT,
        ensures
            final(self).x == old(self).spec_x_after(field, *human, *computer, scale as int),
            final(self).y == old(self).spec_y_after(field, scale as int),
            final(self).vx == old(self).spec_vx_after(field, *human, *computer, scale as int),
            final(self).vy == old(self).spec_vy_after(field, scale as int),
            final(self).size == old(self).size,
            -VEL_LIMIT <= final(self).vx <= VEL_LIMIT,
            mag(final(self).vy as int) == mag(old(self).vy as int),
    {
        proof {
            lemma_logical_product_bounds(self.size as int, scale as int);
            lemma_logical_product_bounds(human.width as int, scale as int);
            lemma_logical_product_bounds(human.length as int, scale as int);
            lemma_logical_product_bounds(computer.width as int, scale as int);
            lemma_logical_product_bounds(computer.length as int, scale as int);
        }
        let pixel_size = self.size * scale;
        let mut new_x = self.x + self.vx;
        let mut new_y = self.y + self.vy;
        if new_y < field.y {
            new_y = field.y;
            self.vy = -self.vy;
        } else if new_y + pixel_size > field.h {
            new_y = field.h - pixel_size;
            self.vy = -self.vy;
        }
        let candidate = Rect { x: new_x, y: new_y, w: pixel_size, h: pixel_size };
        let human_rect = Rect {
            x: human.x,
            y: human.y,
            w: human.width * scale,
            h: human.length * scale,
        };
        let computer_rect = Rect {
            x: computer.x,
            y: computer.y,
            w: computer.width * scale,
            h: computer.length * scale,
        };
        if intersects(candidate, human_rect) {
            new_x = human.x + human.width * scale;
            self.vx = bounce_vx(self.vx);
        } else if intersects(candidate, computer_rect) {
            new_x = computer.x - pixel_size;
            self.vx = bounce_vx(self.vx);
        }
        self.x = new_x;
        self.y = new_y;
    }
}

/// Horizontal velocity after a paddle bounce: flip the sign and grow the
/// magnitude by the ratio 21 to 20, saturating at `VEL_LIMIT`.
pub fn bounce_vx(vx: i64) -> (r: i64)
    requires
        -VEL_LIMIT <= vx <= VEL_LIMIT,
    ensures
        r == spec_bounced_vx(vx as int),
        -VEL_LIMIT <= r <= VEL_LIMIT,
{
    let m: i64 = if vx < 0 { -vx } else { vx };
    let grown: i64 = div_pos(m * 21, 20);
    let capped: i64 = if grown > VEL_LIMIT { VEL_LIMIT } else { grown };
    if vx > 0 {
        -capped
    } else {
        capped
    }
}

/// A paddle bounce flips the sign of the horizontal velocity and grows its
/// magnitude by exactly five percent, up to the fixed-point floor: the new
/// magnitude is the largest whole number of subunits at most 21/20 of the
/// old, and exactly 21/20 of it whenever the old magnitude is a multiple of
/// twenty.
pub proof fn lemma_paddle_bounce(vx: int)
    requires
        0 < mag(vx),
        mag(vx) * 21 / 20 <= VEL_LIMIT,
    ensures
        mag(spec_bounced_vx(vx)) == mag(vx) * 21 / 20,
        vx > 0 ==> spec_bounced_vx(vx) < 0,
        vx < 0 ==> spec_bounced_vx(vx) > 0,
        20 * mag(spec_bounced_vx(vx)) <= 21 * mag(vx) < 20 * (mag(spec_bounced_vx(vx)) + 1),
        mag(vx) % 20 == 0 ==> 20 * mag(spec_bounced_vx(vx)) == 21 * mag(vx),
{
    let m = mag(vx);
    assert(spec_bounce_mag(m) == m * 21 / 20);
    assert(20 * (m * 21 / 20) <= 21 * m < 20 * (m * 21 / 20 + 1)) by (nonlinear_arith)
        requires
            m > 0,
    ;
    assert(m % 20 == 0 ==> 20 * (m * 21 / 20) == 21 * m) by (nonlinear_arith)
        requires
            m > 0,
    ;
    assert(m * 21 / 20 > 0) by (nonlinear_arith)
        requires
            m > 0,
    ;
}

/// A wall bounce inverts the vertical velocity exactly, keeping its
/// magnitude.
pub proof fn lemma_wall_bounce(b: Ball, field: Rect, scale: int)
    requires
        b.y + b.vy < field.y || b.y + b.vy + b.size * scale > field.h,
    ensures
        b.spec_vy_after(field, scale) == -b.vy,
        mag(b.spec_vy_after(field, scale)) == mag(b.vy as int),
{
}

} // verus!
