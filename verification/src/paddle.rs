//! A paddle: logical size and speed, pixel-space position, movement clamped
//! to the field. The human and the computer paddle share this type and its
//! movement primitive; only the choice of the per-frame delta differs.

use vstd::prelude::*;
use crate::units::{clamp, div_pos, spec_clamp, DISP_LIMIT, MAX_LOGICAL, POS_LIMIT, SCALE_LIMIT,
    SPEED_LIMIT};

verus! {

/// A paddle. `length` and `width` are logical units; `speed` is subunits per
/// frame (for the human) or logical units per second (for the computer's
/// displacement formula); `x`, `y` are the top-left corner in subunits.
#[derive(Clone, Copy, PartialEq, Eq, Structural, Debug)]
pub struct Paddle {
    pub length: i64,
    pub width: i64,
    pub speed: i64,
    pub x: i64,
    pub y: i64,
}

impl Paddle {
    /// Bounds under which every paddle computation stays in range.
    pub open spec fn wf(self) -> bool {
        &&& 0 < self.length <= MAX_LOGICAL
        &&& 0 < self.width <= MAX_LOGICAL
        &&& 0 <= self.speed <= SPEED_LIMIT
        &&& -POS_LIMIT <= self.x <= POS_LIMIT
        &&& -POS_LIMIT <= self.y <= POS_LIMIT
    }

    /// The vertical center of a paddle with top edge `y` and logical length
    /// `length`, at the given scale.
    pub open spec fn spec_center_y(y: int, length: int, scale: int) -> int {
        y + length * scale / 2
    }

    /// The paddle's geometric center in pixel space at the given scale.
    pub fn center(&self, scale: i64) -> (c: (i64, i64))
        requires
            self.wf(),
            0 <= scale <= SCALE_LIMIT,
        ensures
            c.0 == self.x + self.width * scale / 2,
            c.1 == Self::spec_center_y(self.y as int, self.length as int, scale as int),
    {
        proof {
            lemma_logical_product_bounds(self.width as int, scale as int);
            lemma_logical_product_bounds(self.length as int, scale as int);
        }
        let half_w = div_pos(self.width * scale, 2);
        let half_l = div_pos(self.length * scale, 2);
        (self.x + half_w, self.y + half_l)
    }

    /// Move the paddle vertically by `delta`, saturating into
    /// `[field_top, field_bottom_limit]`; the bottom limit is expected to
    /// already account for the paddle's pixel length. Whenever the two
    /// bounds do not cross, the new `y` lies between them, however far the
    /// delta reaches.
    pub fn move_by(&mut self, delta: i64, field_top: i64, field_bottom_limit: i64)
        requires
            old(self).wf(),
            -DISP_LIMIT <= delta <= DISP_LIMIT,
            -POS_LIMIT <= field_top <= POS_LIMIT,
            -POS_LIMIT <= field_bottom_limit <= POS_LIMIT,
        ensures
            final(self).y == spec_clamp(
                old(self).y + delta,
                field_top as int,
                field_bottom_limit as int,
            ),
            field_top <= field_bottom_limit ==> field_top <= final(self).y
                <= field_bottom_limit,
            final(self).wf(),
            final(self).x == old(self).x,
            final(self).length == old(self).length,
            final(self).width == old(self).width,
            final(self).speed == old(self).speed,
    {
        self.y = clamp(self.y + delta, field_top, field_bottom_limit);
    }
}

/// A logical size times a scale factor stays within one position unit of
/// range: `0 <= l * s <= MAX_LOGICAL * SCALE_LIMIT`.
pub proof fn lemma_logical_product_bounds(l: int, s: int)
    requires
        0 <= l <= MAX_LOGICAL,
        0 <= s <= SCALE_LIMIT,
    ensures
        0 <= l * s <= MAX_LOGICAL as int * SCALE_LIMIT as int,
{
    assert(0 <= l * s <= MAX_LOGICAL as int * SCALE_LIMIT as int) by (nonlinear_arith)
        requires
            0 <= l <= MAX_LOGICAL,
            0 <= s <= SCALE_LIMIT,
    ;
}

} // verus!
