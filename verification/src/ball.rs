//! The ball's constants: where it starts, how big it is, how fast it flies.

use vstd::prelude::*;

use crate::geometry::Vec2i;
use crate::physics::Velocity;

verus! {

pub const BALL_RADIUS: i32 = 15;

pub const BALL_SIZE_X: i32 = BALL_RADIUS * 2;

pub const BALL_SIZE_Y: i32 = BALL_RADIUS * 2;

pub const BALL_STARTING_X: i32 = 0;

pub const BALL_STARTING_Y: i32 = -50;

/// Length of the ball's initial velocity, in units per second.
pub const BALL_SPEED: i32 = 500;

/// x component of the initial direction `(1, -1)`, normalized and scaled by
/// `BALL_SPEED`: `500 / sqrt(2)`, rounded to the nearest unit.
pub const INITIAL_BALL_VELOCITY_X: i32 = 354;

/// y component of the scaled initial direction, downward.
pub const INITIAL_BALL_VELOCITY_Y: i32 = -354;

pub fn ball_starting_position() -> (p: Vec2i)
    ensures
        p == (Vec2i { x: BALL_STARTING_X, y: BALL_STARTING_Y }),
{
    Vec2i { x: BALL_STARTING_X, y: BALL_STARTING_Y }
}

pub fn ball_size() -> (s: Vec2i)
    ensures
        s == (Vec2i { x: BALL_SIZE_X, y: BALL_SIZE_Y }),
{
    Vec2i { x: BALL_SIZE_X, y: BALL_SIZE_Y }
}

pub fn initial_ball_velocity() -> (v: Velocity)
    ensures
        v == (Velocity { x: INITIAL_BALL_VELOCITY_X, y: INITIAL_BALL_VELOCITY_Y }),
{
    Velocity { x: INITIAL_BALL_VELOCITY_X, y: INITIAL_BALL_VELOCITY_Y }
}

} // verus!
