//! The match state machine: one human paddle, one computer paddle, one
//! ball, two scores, the run phase, and the logical-to-pixel scale factor.
//! The host drives it once per frame with the polled input flags, the
//! current viewport and the elapsed frame time, and reads back rectangles,
//! scores and the phase for rendering.

use vstd::prelude::*;
use crate::ball::{spawned, Ball, OutOfBounds};
use crate::geom::Rect;
use crate::opponent::{displacement, drive, spec_disp, spec_opponent_y};
use crate::paddle::{lemma_logical_product_bounds, Paddle};
use crate::units::{div_pos, spec_clamp, FIELD_UNITS, MAX_DIM, MAX_FRAME_MS, POS_LIMIT,
    SCALE_LIMIT};

verus! {

/// A side wins the match on reaching this score.
pub const GAME_END_SCORE: u8 = 10;

/// Paddle length in logical units.
pub const PADDLE_LENGTH: i64 = 6;

/// Paddle width in logical units.
pub const PADDLE_WIDTH: i64 = 1;

/// Paddle speed in subunits: the human's per-keypress step, and the
/// computer's speed factor in the displacement formula.
pub const PADDLE_SPEED: i64 = 10_000;

/// The human paddle's fixed horizontal position, in subunits.
pub const PLAYER_X: i64 = 10_000;

/// The computer paddle is pinned this far (plus its own pixel width) from
/// the right viewport edge, in subunits.
pub const COMPUTER_INSET: i64 = 10_000;

/// The computer paddle starts this far from the right viewport edge, in
/// subunits, before the per-frame pinning takes over.
pub const COMPUTER_START_INSET: i64 = 11_000;

/// Both paddles start this far above the vertical middle, in subunits.
pub const START_Y_INSET: i64 = 6_000;

/// The run phase of a match.
#[derive(Clone, Copy, PartialEq, Eq, Structural, Debug)]
pub enum Phase {
    Start,
    Running,
    GameOver,
}

/// One match: paddles, ball, scores, phase, viewport and scale.
#[derive(Clone, Copy, PartialEq, Eq, Structural, Debug)]
pub struct Game {
    pub player: Paddle,
    pub computer: Paddle,
    pub ball: Ball,
    pub player_score: u8,
    pub computer_score: u8,
    pub phase: Phase,
    pub width: i64,
    pub height: i64,
    pub offset_x: i64,
    pub offset_y: i64,
    pub scale: i64,
}

impl Game {
    /// The playfield rectangle handed to bounds checks and the ball step.
    pub open spec fn field(self) -> Rect {
        Rect { x: self.offset_x, y: self.offset_y, w: self.width, h: self.height }
    }

    /// The computer paddle as the frame step sees it once its horizontal
    /// position has been pinned to the fixed inset from the right edge.
    pub open spec fn pinned_computer(self) -> Paddle {
        Paddle {
            x: (self.width - self.computer.width * self.scale - COMPUTER_INSET) as i64,
            ..self.computer
        }
    }

    /// The invariant every public operation preserves: components in range,
    /// paddles within a field-sized band, scores within the end threshold,
    /// viewport and scale in range.
    pub open spec fn wf(self) -> bool {
        &&& self.player.wf()
        &&& self.computer.wf()
        &&& self.ball.wf()
        &&& -POS_LIMIT / 2 <= self.player.x <= POS_LIMIT / 2
        &&& -POS_LIMIT / 2 <= self.computer.x <= POS_LIMIT / 2
        &&& self.player_score <= GAME_END_SCORE
        &&& self.computer_score <= GAME_END_SCORE
        &&& 0 <= self.width <= MAX_DIM
        &&& 0 <= self.height <= MAX_DIM
        &&& 0 <= self.offset_x <= MAX_DIM
        &&& 0 <= self.offset_y <= MAX_DIM
        &&& 0 <= self.scale <= SCALE_LIMIT
    }

    /// A fresh match for the given viewport: paddles at their starting
    /// posts, a spawned ball in the middle, zero scores, phase `Start`.
    pub fn new(width: i64, height: i64) -> (g: Game)
        requires
            0 <= width <= MAX_DIM,
            0 <= height <= MAX_DIM,
        ensures
            g.wf(),
            g.phase == Phase::Start,
            g.player_score == 0,
            g.computer_score == 0,
            g.width == width,
            g.height == height,
            g.offset_x == 0,
            g.offset_y == 0,
            g.scale == height as int / FIELD_UNITS as int,
            g.player == (Paddle {
                length: PADDLE_LENGTH,
                width: PADDLE_WIDTH,
                speed: PADDLE_SPEED,
                x: PLAYER_X,
                y: (height as int / 2 - START_Y_INSET) as i64,
            }),
            g.computer == (Paddle {
                length: PADDLE_LENGTH,
                width: PADDLE_WIDTH,
                speed: PADDLE_SPEED,
                x: (width - COMPUTER_START_INSET) as i64,
                y: (height as int / 2 - START_Y_INSET) as i64,
            }),
            spawned(g.ball, width as int / 2, height as int / 2),
    {
        let scale = div_pos(height, FIELD_UNITS);
        let half_w = div_pos(width, 2);
        let half_h = div_pos(height, 2);
        let start_y = half_h - START_Y_INSET;
        Game {
            player: Paddle {
                length: PADDLE_LENGTH,
                width: PADDLE_WIDTH,
                speed: PADDLE_SPEED,
                x: PLAYER_X,
                y: start_y,
            },
            computer: Paddle {
                length: PADDLE_LENGTH,
                width: PADDLE_WIDTH,
                speed: PADDLE_SPEED,
                x: width - COMPUTER_START_INSET,
                y: start_y,
            },
            ball: Ball::spawn(half_w, half_h),
            player_score: 0,
            computer_score: 0,
            phase: Phase::Start,
            width,
            height,
            offset_x: 0,
            offset_y: 0,
            scale,
        }
    }

    /// Record the current viewport and recompute the scale factor from its
    /// height: the playfield height (less the vertical offsets) spans
    /// `FIELD_UNITS` logical units.
    pub fn set_viewport(&mut self, width: i64, height: i64)
        requires
            old(self).wf(),
            0 <= width <= MAX_DIM,
            0 <= height <= MAX_DIM,
            2 * old(self).offset_y <= height,
        ensures
            final(self).wf(),
            final(self).width == width,
            final(self).height == height,
            final(self).scale == (height - 2 * old(self).offset_y) / FIELD_UNITS as int,
            final(self).player == old(self).player,
            final(self).computer == old(self).computer,
            final(self).ball == old(self).ball,
            final(self).player_score == old(self).player_score,
            final(self).computer_score == old(self).computer_score,
            final(self).phase == old(self).phase,
            final(self).offset_x == old(self).offset_x,
            final(self).offset_y == old(self).offset_y,
    {
        self.width = width;
        self.height = height;
        self.scale = div_pos(height - 2 * self.offset_y, FIELD_UNITS);
    }

    /// The human paddle's vertical position after the polled input flags
    /// are applied: an up step, then a down step, each clamped to the
    /// field.
    pub open spec fn spec_human_y(y: int, up: bool, down: bool, speed: int, lo: int,
        hi: int) -> int {
        let y1 = if up { spec_clamp(y - speed, lo, hi) } else { y };
        if down { spec_clamp(y1 + speed, lo, hi) } else { y1 }
    }

    /// React to the polled input flags. In `Start`, confirm begins the
    /// match. In `Running`, the up and down flags move the human paddle by
    /// its speed, clamped to the field. In `GameOver`, confirm resets both
    /// scores and returns to `Running`. The flags are level-triggered: a
    /// held key acts again on every poll.
    pub fn handle_input(&mut self, up: bool, down: bool, confirm: bool)
        requires
            old(self).wf(),
        ensures
            final(self).wf(),
            old(self).phase == Phase::Start ==> *final(self) == (Game {
                phase: if confirm { Phase::Running } else { Phase::Start },
                ..*old(self)
            }),
            old(self).phase == Phase::Running ==> {
                &&& final(self).player.y == Self::spec_human_y(
                    old(self).player.y as int,
                    up,
                    down,
                    old(self).player.speed as int,
                    old(self).offset_y as int,
                    old(self).height - old(self).player.length * old(self).scale,
                )
                &&& final(self).player.x == old(self).player.x
                &&& final(self).player.length == old(self).player.length
                &&& final(self).player.width == old(self).player.width
                &&& final(self).player.speed == old(self).player.speed
                &&& final(self).computer == old(self).computer
                &&& final(self).ball == old(self).ball
                &&& final(self).player_score == old(self).player_score
                &&& final(self).computer_score == old(self).computer_score
                &&& final(self).phase == Phase::Running
                &&& final(self).width == old(self).width
                &&& final(self).height == old(self).height
                &&& final(self).offset_x == old(self).offset_x
                &&& final(self).offset_y == old(self).offset_y
                &&& final(self).scale == old(self).scale
            },
            old(self).phase == Phase::GameOver ==> *final(self) == (Game {
                phase: if confirm { Phase::Running } else { Phase::GameOver },
                player_score: if confirm { 0 } else { old(self).player_score },
                computer_score: if confirm { 0 } else { old(self).computer_score },
                ..*old(self)
            }),
    {
        match self.phase {
            Phase::Start => {
                if confirm {
                    self.phase = Phase::Running;
                }
            },
            Phase::Running => {
                proof {
                    lemma_logical_product_bounds(self.player.length as int, self.scale as int);
                }
                let hi = self.height - self.player.length * self.scale;
                let speed = self.player.speed;
                let lo = self.offset_y;
                if up {
                    self.player.move_by(-speed, lo, hi);
                }
                if down {
                    self.player.move_by(speed, lo, hi);
                }
            },
            Phase::GameOver => {
                if confirm {
                    self.player_score = 0;
                    self.computer_score = 0;
                    self.phase = Phase::Running;
                }
            },
        }
    }

    /// Whether a frame that starts in `Running` observes a finished match.
    pub open spec fn spec_ended(self) -> bool {
        self.player_score == GAME_END_SCORE || self.computer_score == GAME_END_SCORE
    }

    /// One simulation frame. Outside `Running` nothing happens. In
    /// `Running`: the computer paddle is pinned to its inset from the right
    /// edge; a finished match moves to `GameOver` and stops; otherwise the
    /// ball is classified against the field — an exit past the left edge
    /// scores for the computer, past the right edge for the human, and
    /// either respawns the ball in the middle, while a ball inside advances
    /// one physics step — and finally the computer paddle takes one policy
    /// step toward its target.
    pub fn update(&mut self, frame_time_ms: i64)
        requires
            old(self).wf(),
            0 <= frame_time_ms <= MAX_FRAME_MS,
        ensures
            final(self).wf(),
            final(self).phase == Phase::GameOver <==> (old(self).phase == Phase::GameOver || (
            old(self).phase == Phase::Running && old(self).spec_ended())),
            old(self).phase != Phase::Running ==> *final(self) == *old(self),
            old(self).phase == Phase::Running ==> {
                &&& final(self).computer.x == old(self).pinned_computer().x
                &&& final(self).computer.length == old(self).computer.length
                &&& final(self).computer.width == old(self).computer.width
                &&& final(self).computer.speed == old(self).computer.speed
                &&& final(self).player == old(self).player
                &&& final(self).width == old(self).width
                &&& final(self).height == old(self).height
                &&& final(self).offset_x == old(self).offset_x
                &&& final(self).offset_y == old(self).offset_y
                &&& final(self).scale == old(self).scale
            },
            old(self).phase == Phase::Running && old(self).spec_ended() ==> {
                &&& final(self).ball == old(self).ball
                &&& final(self).player_score == old(self).player_score
                &&& final(self).computer_score == old(self).computer_score
                &&& final(self).computer.y == old(self).computer.y
            },
            old(self).phase == Phase::Running && !old(self).spec_ended() ==> {
                &&& final(self).phase == Phase::Running
                &&& old(self).ball.spec_out_of_bounds(old(self).field(), old(self).scale as int)
                    == OutOfBounds::Left ==> {
                    &&& final(self).computer_score == old(self).computer_score + 1
                    &&& final(self).player_score == old(self).player_score
                    &&& spawned(final(self).ball, old(self).width as int / 2,
                        old(self).height as int / 2)
                }
                &&& old(self).ball.spec_out_of_bounds(old(self).field(), old(self).scale as int)
                    == OutOfBounds::Right ==> {
                    &&& final(self).player_score == old(self).player_score + 1
                    &&& final(self).computer_score == old(self).computer_score
                    &&& spawned(final(self).ball, old(self).width as int / 2,
                        old(self).height as int / 2)
                }
                &&& old(self).ball.spec_out_of_bounds(old(self).field(), old(self).scale as int)
                    == OutOfBounds::Inside ==> {
                    &&& final(self).player_score == old(self).player_score
                    &&& final(self).computer_score == old(self).computer_score
                    &&& final(self).ball.x == old(self).ball.spec_x_after(old(self).field(),
                        old(self).player, old(self).pinned_computer(), old(self).scale as int)
                    &&& final(self).ball.y == old(self).ball.spec_y_after(old(self).field(),
                        old(self).scale as int)
                    &&& final(self).ball.vx == old(self).ball.spec_vx_after(old(self).field(),
                        old(self).player, old(self).pinned_computer(), old(self).scale as int)
                    &&& final(self).ball.vy == old(self).ball.spec_vy_after(old(self).field(),
                        old(self).scale as int)
                    &&& final(self).ball.size == old(self).ball.size
                }
                &&& final(self).computer.y == spec_opponent_y(
                    old(self).pinned_computer(),
                    final(self).ball,
                    spec_disp(frame_time_ms as int, old(self).computer.speed as int,
                        old(self).scale as int),
                    old(self).offset_y as int,
                    old(self).height as int,
                    old(self).scale as int,
                )
            },
    {
        match self.phase {
            Phase::Running => {
                proof {
                    lemma_logical_product_bounds(self.computer.width as int, self.scale as int);
                    lemma_logical_product_bounds(self.player.width as int, self.scale as int);
                    lemma_logical_product_bounds(self.ball.size as int, self.scale as int);
                }
                self.computer.x = self.width - self.computer.width * self.scale - COMPUTER_INSET;
                proof {
                    assert(self.computer == old(self).pinned_computer());
                }
                if self.computer_score == GAME_END_SCORE || self.player_score == GAME_END_SCORE {
                    self.phase = Phase::GameOver;
                    return;
                }
                let field = Rect {
                    x: self.offset_x,
                    y: self.offset_y,
                    w: self.width,
                    h: self.height,
                };
                let placement = self.ball.out_of_bounds(field, self.scale);
                match placement {
                    OutOfBounds::Inside => {
                        self.ball.advance(field, &self.player, &self.computer, self.scale);
                    },
                    OutOfBounds::Left => {
                        self.computer_score = self.computer_score + 1;
                        let half_w = div_pos(self.width, 2);
                        let half_h = div_pos(self.height, 2);
                        self.ball = Ball::spawn(half_w, half_h);
                    },
                    OutOfBounds::Right => {
                        self.player_score = self.player_score + 1;
                        let half_w = div_pos(self.width, 2);
                        let half_h = div_pos(self.height, 2);
                        self.ball = Ball::spawn(half_w, half_h);
                    },
                }
                let disp = displacement(frame_time_ms, self.computer.speed, self.scale);
                drive(&mut self.computer, &self.ball, disp, self.offset_y, self.height,
                    self.scale);
            },
            _ => {},
        }
    }

    /// The rectangle at which a paddle is drawn: its position shifted by
    /// the render offsets, its logical size brought to pixel space.
    fn paddle_rect(p: &Paddle, offset_x: i64, offset_y: i64, scale: i64) -> (r: Rect)
        requires
            p.wf(),
            0 <= offset_x <= MAX_DIM,
            0 <= offset_y <= MAX_DIM,
            0 <= scale <= SCALE_LIMIT,
        ensures
            r.x == offset_x + p.x,
            r.y == offset_y + p.y,
            r.w == p.width * scale,
            r.h == p.length * scale,
    {
        proof {
            lemma_logical_product_bounds(p.width as int, scale as int);
            lemma_logical_product_bounds(p.length as int, scale as int);
        }
        Rect { x: offset_x + p.x, y: offset_y + p.y, w: p.width * scale, h: p.length * scale }
    }

    /// The rectangle at which the human paddle is drawn.
    pub fn player_rect(&self) -> (r: Rect)
        requires
            self.wf(),
        ensures
            r.x == self.offset_x + self.player.x,
            r.y == self.offset_y + self.player.y,
            r.w == self.player.width * self.scale,
            r.h == self.player.length * self.scale,
    {
        Self::paddle_rect(&self.player, self.offset_x, self.offset_y, self.scale)
    }

    /// The rectangle at which the computer paddle is drawn.
    pub fn computer_rect(&self) -> (r: Rect)
        requires
            self.wf(),
        ensures
            r.x == self.offset_x + self.computer.x,
            r.y == self.offset_y + self.computer.y,
            r.w == self.computer.width * self.scale,
            r.h == self.computer.length * self.scale,
    {
        Self::paddle_rect(&self.computer, self.offset_x, self.offset_y, self.scale)
    }

    /// The rectangle at which the ball is drawn: unlike the paddles, the
    /// ball's position is already absolute, without the render offsets.
    pub fn ball_rect(&self) -> (r: Rect)
        requires
            self.wf(),
        ensures
            r.x == self.ball.x,
            r.y == self.ball.y,
            r.w == self.ball.size * self.scale,
            r.h == self.ball.size * self.scale,
    {
        proof {
            lemma_logical_product_bounds(self.ball.size as int, self.scale as int);
        }
        let side = self.ball.size * self.scale;
        Rect { x: self.ball.x, y: self.ball.y, w: side, h: side }
    }
}

} // verus!
