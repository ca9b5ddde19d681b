//! Fixed-point helpers: converting a rate per second into a change over a
//! frame of `dt` milliseconds, truncating toward zero as the executable
//! integer division does.
use vstd::prelude::*;

use crate::DT_MAX;

verus! {

/// Largest rate (absolute value) that `scale_velocity` accepts without
/// overflowing, milli-units per second.
pub const SCALE_IN_MAX: i64 = 2_000_000_000_000;

/// Bound (absolute value) on what `scale_velocity` returns:
/// `SCALE_IN_MAX * DT_MAX / 1000`.
pub const SCALE_OUT_MAX: i64 = 2_000_000_000_000_000;

/// The change accumulated over `dt` milliseconds by a rate of `v` per
/// second: `v * dt / 1000`, truncated toward zero.
pub open spec fn scale_down(v: int, dt: int) -> int
    recommends
        0 <= dt,
{
    if v >= 0 {
        (v * dt) / 1000
    } else {
        -(((-v) * dt) / 1000)
    }
}

/// Applies a per-second rate `v` over a frame of `dt` milliseconds.
pub fn scale_velocity(v: i64, dt: u64) -> (r: i64)
    requires
        dt <= DT_MAX,
        -SCALE_IN_MAX <= v <= SCALE_IN_MAX,
    ensures
        r == scale_down(v as int, dt as int),
        -SCALE_OUT_MAX <= r <= SCALE_OUT_MAX,
{
    let mag: u64 = if v >= 0 {
        v as u64
    } else {
        (-v) as u64
    };
    proof {
        assert(mag as int * (dt as int) <= 2_000_000_000_000 * 1_000_000) by (nonlinear_arith)
            requires
                mag as int <= 2_000_000_000_000,
                dt as int <= 1_000_000,
                0 <= mag as int,
                0 <= dt as int,
        ;
    }
    let prod: u64 = mag * dt;
    let q: u64 = prod / 1000;
    if v >= 0 {
        q as i64
    } else {
        -(q as i64)
    }
}

} // verus!
