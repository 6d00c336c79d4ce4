//! Measurement conventions and shared arithmetic helpers.
//!
//! Pixel space is measured in subunits: one pixel is `SUBUNITS_PER_PIXEL`
//! subunits. The playfield is `FIELD_UNITS` logical units tall, so the
//! pixels-per-logical-unit scale factor is `height / FIELD_UNITS`.

use vstd::prelude::*;

verus! {

/// Subunits per pixel: every pixel-space coordinate, size and velocity in
/// this crate is an `i64` count of these.
pub const SUBUNITS_PER_PIXEL: i64 = 1000;

/// The playfield spans this many logical units vertically.
pub const FIELD_UNITS: i64 = 32;

/// Largest viewport dimension (in subunits) the engine accepts.
pub const MAX_DIM: i64 = 1_000_000_000;

/// Largest logical size (paddle length/width, ball size) the engine accepts.
pub const MAX_LOGICAL: i64 = 1000;

/// Largest scale factor that can arise: `MAX_DIM / FIELD_UNITS`.
pub const SCALE_LIMIT: i64 = 31_250_000;

/// Velocities and speeds are kept within this magnitude (in subunits).
pub const VEL_LIMIT: i64 = 1_000_000_000;

/// Paddle speeds are kept within this magnitude (in subunits), so that the
/// displacement formula stays in range.
pub const SPEED_LIMIT: i64 = 1_000_000;

/// Positions are kept within this magnitude (in subunits).
pub const POS_LIMIT: i64 = 100_000_000_000;

/// Largest per-frame displacement accepted by clamped moves (in subunits).
pub const DISP_LIMIT: i64 = 10_000_000_000_000;

/// Largest frame time accepted, in milliseconds.
pub const MAX_FRAME_MS: i64 = 100_000;

/// Saturating clamp: the lower bound wins over the upper bound when the two
/// cross, matching the order in which the bounds are tested.
pub open spec fn spec_clamp(v: int, lo: int, hi: int) -> int {
    if v < lo {
        lo
    } else if v > hi {
        hi
    } else {
        v
    }
}

/// Clamp `v` into `[lo, hi]` by saturation.
pub fn clamp(v: i64, lo: i64, hi: i64) -> (r: i64)
    ensures
        r == spec_clamp(v as int, lo as int, hi as int),
{
    if v < lo {
        lo
    } else if v > hi {
        hi
    } else {
        v
    }
}

/// Quotient of two non-negative values, matching spec-level division.
pub fn div_pos(a: i64, d: i64) -> (r: i64)
    requires
        a >= 0,
        d > 0,
    ensures
        r == a as int / d as int,
{
    let q: u64 = a as u64 / d as u64;
    q as i64
}

/// Magnitude of an integer.
pub open spec fn mag(v: int) -> int {
    if v < 0 {
        -v
    } else {
        v
    }
}

} // verus!
