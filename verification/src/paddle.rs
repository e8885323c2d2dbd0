//! The player's paddle: its constants and its clamped per-tick motion.

use vstd::prelude::*;

use crate::geometry::{clamp, clamp_i64, div_trunc_i64};
use crate::physics::{vel_delta, TimeStep};
use crate::wall::{LEFT_WALL, RIGHT_WALL};

verus! {

pub const PADDLE_SPEED: i32 = 900;

/// Half the paddle's width.
pub const PADDLE_HALF_X: i32 = 60;

pub const PADDLE_SIZE_X: i32 = 2 * PADDLE_HALF_X;

pub const PADDLE_SIZE_Y: i32 = 20;

pub const PADDLE_PADDING: i32 = 0;

pub const GAP_BETWEEN_PADDLE_AND_FLOOR: i32 = 60;

/// Leftmost x the paddle's center may take, keeping the paddle inside the
/// walls with its padding.
pub const PADDLE_LEFT_BOUND: i32 = LEFT_WALL + PADDLE_HALF_X + PADDLE_PADDING;

/// Rightmost x the paddle's center may take.
pub const PADDLE_RIGHT_BOUND: i32 = RIGHT_WALL - PADDLE_HALF_X - PADDLE_PADDING;

/// Where one move command puts the paddle: shifted by
/// `direction * speed * timestep` and clamped into the playable range.
pub open spec fn paddle_target(x: int, direction: int, dt: TimeStep) -> int {
    clamp(
        x + vel_delta(direction * PADDLE_SPEED, dt),
        PADDLE_LEFT_BOUND as int,
        PADDLE_RIGHT_BOUND as int,
    )
}

/// Move the paddle for one tick: `direction` is -1, 0 or 1 from the
/// left/right key state, and the result is clamped to the playable range.
pub fn move_paddle(x: i32, direction: i32, dt: TimeStep) -> (r: i32)
    requires
        dt.wf(),
        -1 <= direction <= 1,
    ensures
        r == paddle_target(x as int, direction as int, dt),
        PADDLE_LEFT_BOUND <= r <= PADDLE_RIGHT_BOUND,
{
    proof {
        assert(-0x8000_0000_0000i64 < (direction as i64) * (PADDLE_SPEED as i64) * (dt.num as i64)
            < 0x8000_0000_0000i64) by (nonlinear_arith)
            requires
                -1 <= direction as i64 <= 1,
                PADDLE_SPEED as i64 == 900,
                0 <= dt.num as i64 <= 0x7fff_ffff,
        ;
        assert((direction as i64) * (PADDLE_SPEED as i64) * (dt.num as i64) == (direction
            * PADDLE_SPEED) * dt.num) by (nonlinear_arith);
    }
    let scaled: i64 = (direction as i64) * (PADDLE_SPEED as i64) * (dt.num as i64);
    let delta: i64 = div_trunc_i64(scaled, dt.den as i64);
    let target: i64 = x as i64 + delta;
    let clamped: i64 = clamp_i64(target, PADDLE_LEFT_BOUND as i64, PADDLE_RIGHT_BOUND as i64);
    clamped as i32
}

} // verus!
