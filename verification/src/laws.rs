//! The guarantees the simulation gives beyond each function's own
//! contract, stated over the ghost models and proved once and for all.
use vstd::prelude::*;

use crate::game::{
    bounce_vx_model, integrate_model, lane_hi, lane_lo, lemma_gravity_scale_exact,
    move_paddle_model, scored_ball_model, scored_score_model, score_hit, wall_reflect_model,
    BallModel, KeyState, PaddleModel, ScoreModel, Side,
};
use crate::{ARENA_HEIGHT, ARENA_MID_X, ARENA_MID_Y, ARENA_WIDTH, GRAVITY_ACCELERATION};

verus! {

/// Kinematics are deterministic and gravity enters them exactly: one
/// integration step adds `GRAVITY_ACCELERATION * dt / 1000` to the
/// vertical velocity with no rounding, and leaves the horizontal velocity
/// alone.
pub proof fn law_kinematics_gravity_exact(m: BallModel, dt: int)
    requires
        0 <= dt,
    ensures
        integrate_model(m, dt).vy == m.vy + (GRAVITY_ACCELERATION as int) * dt / 1000,
        1000 * (integrate_model(m, dt).vy - m.vy) == (GRAVITY_ACCELERATION as int) * dt,
        integrate_model(m, dt).vx == m.vx,
        integrate_model(m, dt).radius == m.radius,
{
    lemma_gravity_scale_exact(dt);
}

/// Reflection is idempotent-safe: a ball touching a wall or the ceiling
/// but no longer moving into it is not reflected again. (A ball so large
/// that it touches both side walls at once is left out: moving away from
/// one wall then is moving into the other.)
pub proof fn law_reflection_idempotent_safe(m: BallModel)
    requires
        2 * m.radius < ARENA_WIDTH,
    ensures
        m.x <= m.radius && m.vx >= 0 ==> wall_reflect_model(m).vx == m.vx,
        m.x >= ARENA_WIDTH - m.radius && m.vx <= 0 ==> wall_reflect_model(m).vx == m.vx,
        m.y >= ARENA_HEIGHT - m.radius && m.vy <= 0 ==> wall_reflect_model(m).vy == m.vy,
{
}

/// A paddle bounce scales the outgoing horizontal speed into
/// `[0.6, 1.4)` times the incoming one — the lower bound rounded down to
/// the fixed-point grid — and directs it away from the paddle's side,
/// whatever the incoming sign.
pub proof fn law_paddle_bounce_range(vx: int, side: Side, f: int)
    requires
        600 <= f < 1400,
        vx != 0,
    ensures
        vstd::math::abs(bounce_vx_model(vx, side, f)) >= (600 * vstd::math::abs(vx) as int)
            / 1000,
        1000 * vstd::math::abs(bounce_vx_model(vx, side, f)) < 1400 * vstd::math::abs(vx) as int,
        side == Side::Left ==> bounce_vx_model(vx, side, f) >= 0,
        side == Side::Right ==> bounce_vx_model(vx, side, f) <= 0,
        vstd::math::abs(vx) >= 2 && side == Side::Left ==> bounce_vx_model(vx, side, f) >= 1,
        vstd::math::abs(vx) >= 2 && side == Side::Right ==> bounce_vx_model(vx, side, f) <= -1,
{
    let m = vstd::math::abs(vx) as int;
    let mag = (m * f) / 1000;
    assert(600 * m <= m * f && m * f <= 1399 * m) by (nonlinear_arith)
        requires
            600 <= f <= 1399,
            0 <= m,
    ;
    vstd::arithmetic::div_mod::lemma_div_is_ordered(600 * m, m * f, 1000);
    vstd::arithmetic::div_mod::lemma_fundamental_div_mod(m * f, 1000);
    assert(1399 * m < 1400 * m) by (nonlinear_arith)
        requires
            1 <= m,
    ;
    if m >= 2 {
        assert(1200 <= m * f) by (nonlinear_arith)
            requires
                2 <= m,
                600 <= f,
        ;
        vstd::arithmetic::div_mod::lemma_div_is_ordered(1200, m * f, 1000);
    }
}

/// Wherever a paddle starts and whatever is held, after one frame its
/// clamped position lies inside its side's lane.
pub proof fn law_paddle_stays_in_lane(p: PaddleModel, ks: KeyState, dt: int)
    ensures
        lane_lo(p.side) <= move_paddle_model(p, ks, dt).x <= lane_hi(p.side),
{
}

/// A ball on the ground concedes against the side it came down on: on or
/// left of the midline the right side scores, right of it the left side
/// scores, the other counter stands, and the ball returns to the exact
/// arena centre in free fall.
pub proof fn law_scoring_sides(m: BallModel, s: ScoreModel)
    requires
        score_hit(m),
    ensures
        m.x <= ARENA_MID_X ==> scored_score_model(m, s).right == s.right + 1
            && scored_score_model(m, s).left == s.left,
        m.x > ARENA_MID_X ==> scored_score_model(m, s).left == s.left + 1 && scored_score_model(
            m,
            s,
        ).right == s.right,
        scored_ball_model(m).x == ARENA_MID_X,
        scored_ball_model(m).y == ARENA_MID_Y,
        scored_ball_model(m).vy == 0,
        scored_ball_model(m).radius == m.radius,
{
}

} // verus!
