//! Core simulation of a two-player "volleyball" arcade game: a
//! gravity-affected ball bounces between walls, a ceiling and two paddles
//! inside a fixed arena, and a point is scored whenever the ball touches the
//! ground on either side.
//!
//! All geometry is carried in fixed-point integers: lengths in milli-units
//! (one arena unit is 1000), time in milliseconds, velocities in milli-units
//! per second and accelerations in milli-units per second squared. Every
//! update function states its result exactly over this integer model.
use vstd::prelude::*;

pub mod display;
pub mod game;
pub mod laws;
pub mod units;

verus! {

/// Arena width, milli-units.
pub const ARENA_WIDTH: i64 = 800_000;

/// Arena height, milli-units.
pub const ARENA_HEIGHT: i64 = 600_000;

/// Horizontal midline of the arena, milli-units (half of `ARENA_WIDTH`).
pub const ARENA_MID_X: i64 = 400_000;

/// Vertical midpoint of the arena, milli-units (half of `ARENA_HEIGHT`).
pub const ARENA_MID_Y: i64 = 300_000;

/// Paddle sprite height, milli-units.
pub const PLAYER_HEIGHT: i64 = 32_000;

/// Paddle sprite width, milli-units.
pub const PLAYER_WIDTH: i64 = 22_000;

/// Half of `PLAYER_WIDTH`, milli-units.
pub const PLAYER_HALF_WIDTH: i64 = 11_000;

/// Half of `PLAYER_HEIGHT`, milli-units; also the fixed paddle centre height.
pub const PLAYER_HALF_HEIGHT: i64 = 16_000;

/// Horizontal paddle speed while a key is held, milli-units per second.
pub const PLAYER_SPEED: i64 = 60_000;

/// Initial horizontal ball velocity, milli-units per second.
pub const BALL_VELOCITY_X: i64 = 30_000;

/// Initial vertical ball velocity, milli-units per second.
pub const BALL_VELOCITY_Y: i64 = 0;

/// Ball radius, milli-units.
pub const BALL_RADIUS: i64 = 4_000;

/// Gravity acceleration, milli-units per second squared (downward).
pub const GRAVITY_ACCELERATION: i64 = -40_000;

/// Half of `GRAVITY_ACCELERATION`, used by the semi-implicit Euler step.
pub const HALF_GRAVITY: i64 = -20_000;

/// Largest frame duration a single step accepts, milliseconds.
pub const DT_MAX: u64 = 1_000_000;

/// Velocity bound (absolute value) under which a whole frame is free of
/// overflow, milli-units per second.
pub const VEL_LIMIT: i64 = 1_000_000_000_000;

/// Position bound (absolute value) under which a whole frame is free of
/// overflow, milli-units.
pub const POS_LIMIT: i64 = 4_000_000_000_000_000;

/// Largest ball radius the collision arithmetic accepts, milli-units.
pub const RADIUS_LIMIT: i64 = 100_000_000;

/// Smallest paddle-bounce speed factor, in thousandths (0.6).
pub const FACTOR_MIN: u64 = 600;

/// One past the largest paddle-bounce speed factor, in thousandths (1.4).
pub const FACTOR_MAX: u64 = 1_400;

} // verus!
