//! Game state and the per-frame update: paddle control, ball kinematics,
//! collision resolution against walls, ceiling and paddles, and scoring.
//!
//! Every executable update states its effect over ghost models with
//! unbounded integer fields (`BallModel`, `PaddleModel`, `ScoreModel`), so
//! the contracts are free of machine-width concerns; the `requires` of each
//! function only keep the fixed-point arithmetic inside `i64`.
use vstd::prelude::*;

use crate::units::{scale_down, scale_velocity};
use crate::{
    ARENA_HEIGHT, ARENA_MID_X, ARENA_MID_Y, ARENA_WIDTH, BALL_RADIUS, BALL_VELOCITY_X,
    BALL_VELOCITY_Y, DT_MAX, FACTOR_MAX, FACTOR_MIN, GRAVITY_ACCELERATION, HALF_GRAVITY,
    PLAYER_HALF_HEIGHT, PLAYER_HALF_WIDTH, PLAYER_SPEED, POS_LIMIT, RADIUS_LIMIT, VEL_LIMIT,
};

verus! {

/// Largest ball speed (absolute value) that `bounce` accepts, milli-units
/// per second.
pub const BOUNCE_IN_MAX: i64 = 5_000_000_000_000_000;

/// Bound (absolute value) on the horizontal ball speed after one paddle
/// has rescaled an input within `BOUNCE_IN_MAX`.
pub const BOUNCE_MID_MAX: i64 = 7_000_000_000_000_000;

/// Bound (absolute value) on the horizontal ball speed that `bounce` can
/// produce from an input within `BOUNCE_IN_MAX`.
pub const BOUNCE_OUT_MAX: i64 = 10_000_000_000_000_000;

/// Which half of the arena a paddle defends.
#[derive(Clone, Copy, PartialEq, Eq, Structural, Debug)]
pub enum Side {
    Left,
    Right,
}

/// The four logical keys that drive the two paddles.
#[derive(Clone, Copy, PartialEq, Eq, Structural, Debug)]
pub enum Key {
    A,
    D,
    LeftArrow,
    RightArrow,
}

/// Which of the four logical keys are currently held down.
#[derive(Clone, Copy, PartialEq, Eq, Structural, Debug)]
pub struct KeyState {
    pub a: bool,
    pub d: bool,
    pub left_arrow: bool,
    pub right_arrow: bool,
}

/// The ball: centre position, velocity and radius, all in fixed point.
#[derive(Clone, Copy, PartialEq, Eq, Structural, Debug)]
pub struct Ball {
    pub x: i64,
    pub y: i64,
    pub vx: i64,
    pub vy: i64,
    pub radius: i64,
}

/// A paddle: its side and the centre of its sprite.
#[derive(Clone, Copy, PartialEq, Eq, Structural, Debug)]
pub struct Paddle {
    pub side: Side,
    pub x: i64,
    pub y: i64,
}

/// The two score counters.
#[derive(Clone, Copy, PartialEq, Eq, Structural, Debug)]
pub struct Score {
    pub left: u64,
    pub right: u64,
}

/// The whole simulation state: one ball, two paddles, the score.
#[derive(Clone, Copy, PartialEq, Eq, Structural, Debug)]
pub struct Game {
    pub ball: Ball,
    pub left: Paddle,
    pub right: Paddle,
    pub score: Score,
}

/// Mathematical model of a ball, with unbounded integer coordinates.
pub ghost struct BallModel {
    pub x: int,
    pub y: int,
    pub vx: int,
    pub vy: int,
    pub radius: int,
}

/// Mathematical model of a paddle.
pub ghost struct PaddleModel {
    pub side: Side,
    pub x: int,
    pub y: int,
}

/// Mathematical model of the score counters.
pub ghost struct ScoreModel {
    pub left: int,
    pub right: int,
}

impl View for Ball {
    type V = BallModel;

    open spec fn view(&self) -> BallModel {
        BallModel {
            x: self.x as int,
            y: self.y as int,
            vx: self.vx as int,
            vy: self.vy as int,
            radius: self.radius as int,
        }
    }
}

impl View for Paddle {
    type V = PaddleModel;

    open spec fn view(&self) -> PaddleModel {
        PaddleModel { side: self.side, x: self.x as int, y: self.y as int }
    }
}

impl View for Score {
    type V = ScoreModel;

    open spec fn view(&self) -> ScoreModel {
        ScoreModel { left: self.left as int, right: self.right as int }
    }
}

/// The lowest centre position a paddle of the given side may take.
pub open spec fn lane_lo(side: Side) -> int {
    match side {
        Side::Left => PLAYER_HALF_WIDTH as int,
        Side::Right => ARENA_MID_X + PLAYER_HALF_WIDTH,
    }
}

/// The highest centre position a paddle of the given side may take.
pub open spec fn lane_hi(side: Side) -> int {
    match side {
        Side::Left => ARENA_MID_X - PLAYER_HALF_WIDTH,
        Side::Right => ARENA_WIDTH - PLAYER_HALF_WIDTH,
    }
}

/// A paddle sits inside its lane, at the fixed paddle height.
pub open spec fn paddle_wf(p: PaddleModel) -> bool {
    &&& lane_lo(p.side) <= p.x <= lane_hi(p.side)
    &&& p.y == PLAYER_HALF_HEIGHT
}

/// Ball bounds under which one whole frame stays inside `i64`.
pub open spec fn ball_wf(m: BallModel) -> bool {
    &&& 0 < m.radius <= RADIUS_LIMIT
    &&& -VEL_LIMIT <= m.vx <= VEL_LIMIT
    &&& -VEL_LIMIT <= m.vy <= VEL_LIMIT
    &&& -POS_LIMIT <= m.x <= POS_LIMIT
    &&& -POS_LIMIT <= m.y <= POS_LIMIT
}

/// Everything `step_frame` needs of a game state.
pub open spec fn game_wf(g: Game) -> bool {
    &&& ball_wf(g.ball@)
    &&& paddle_wf(g.left@)
    &&& g.left.side == Side::Left
    &&& paddle_wf(g.right@)
    &&& g.right.side == Side::Right
    &&& g.score.left < u64::MAX
    &&& g.score.right < u64::MAX
}

impl Side {
    /// The key that moves this side's paddle toward the left wall.
    pub open spec fn spec_go_left_key(self) -> Key {
        match self {
            Side::Left => Key::A,
            Side::Right => Key::LeftArrow,
        }
    }

    /// The key that moves this side's paddle toward the right wall.
    pub open spec fn spec_go_right_key(self) -> Key {
        match self {
            Side::Left => Key::D,
            Side::Right => Key::RightArrow,
        }
    }

    pub fn go_left_key(&self) -> (k: Key)
        ensures
            k == self.spec_go_left_key(),
    {
        match self {
            Side::Left => Key::A,
            Side::Right => Key::LeftArrow,
        }
    }

    pub fn go_right_key(&self) -> (k: Key)
        ensures
            k == self.spec_go_right_key(),
    {
        match self {
            Side::Left => Key::D,
            Side::Right => Key::RightArrow,
        }
    }

    /// The inclusive range of centre positions open to this side's paddle.
    pub fn range(&self) -> (r: (i64, i64))
        ensures
            r.0 == lane_lo(*self),
            r.1 == lane_hi(*self),
    {
        match self {
            Side::Left => (PLAYER_HALF_WIDTH, ARENA_MID_X - PLAYER_HALF_WIDTH),
            Side::Right => (ARENA_MID_X + PLAYER_HALF_WIDTH, ARENA_WIDTH - PLAYER_HALF_WIDTH),
        }
    }
}

/// Whether the given logical key is held in this key state.
pub open spec fn spec_pressed(ks: KeyState, k: Key) -> bool {
    match k {
        Key::A => ks.a,
        Key::D => ks.d,
        Key::LeftArrow => ks.left_arrow,
        Key::RightArrow => ks.right_arrow,
    }
}

impl KeyState {
    /// A key state with nothing held down.
    pub fn released() -> (ks: KeyState)
        ensures
            forall|k: Key| !spec_pressed(ks, k),
    {
        KeyState { a: false, d: false, left_arrow: false, right_arrow: false }
    }

    pub fn pressed(&self, k: Key) -> (b: bool)
        ensures
            b == spec_pressed(*self, k),
    {
        match k {
            Key::A => self.a,
            Key::D => self.d,
            Key::LeftArrow => self.left_arrow,
            Key::RightArrow => self.right_arrow,
        }
    }
}

impl Ball {
    /// A ball at the arena centre with the initial serve velocity.
    pub fn new() -> (b: Ball)
        ensures
            b.x == ARENA_MID_X,
            b.y == ARENA_MID_Y,
            b.vx == BALL_VELOCITY_X,
            b.vy == BALL_VELOCITY_Y,
            b.radius == BALL_RADIUS,
            ball_wf(b@),
    {
        Ball {
            x: ARENA_MID_X,
            y: ARENA_MID_Y,
            vx: BALL_VELOCITY_X,
            vy: BALL_VELOCITY_Y,
            radius: BALL_RADIUS,
        }
    }
}

impl Paddle {
    /// A paddle resting against its side's outer wall, at paddle height.
    pub fn new(side: Side) -> (p: Paddle)
        ensures
            p.side == side,
            p.y == PLAYER_HALF_HEIGHT,
            side == Side::Left ==> p.x == PLAYER_HALF_WIDTH,
            side == Side::Right ==> p.x == ARENA_WIDTH - PLAYER_HALF_WIDTH,
            paddle_wf(p@),
    {
        let x: i64 = match side {
            Side::Left => PLAYER_HALF_WIDTH,
            Side::Right => ARENA_WIDTH - PLAYER_HALF_WIDTH,
        };
        Paddle { side, x, y: PLAYER_HALF_HEIGHT }
    }
}

impl Score {
    /// Both counters at zero.
    pub fn new() -> (s: Score)
        ensures
            s.left == 0,
            s.right == 0,
    {
        Score { left: 0, right: 0 }
    }
}

/// Whether `(x, y)` lies in the axis-aligned rectangle, borders included.
pub open spec fn spec_point_in_rect(
    x: int,
    y: int,
    left: int,
    bottom: int,
    right: int,
    top: int,
) -> bool {
    left <= x <= right && bottom <= y <= top
}

pub fn point_in_rect(x: i64, y: i64, left: i64, bottom: i64, right: i64, top: i64) -> (b: bool)
    ensures
        b == spec_point_in_rect(x as int, y as int, left as int, bottom as int, right as int,
            top as int),
{
    x >= left && x <= right && y >= bottom && y <= top
}

/// One semi-implicit Euler step of `dt` milliseconds: the position advances
/// by the mid-step velocity, then gravity is added to the vertical velocity.
pub open spec fn integrate_model(m: BallModel, dt: int) -> BallModel {
    BallModel {
        x: m.x + scale_down(m.vx, dt),
        y: m.y + scale_down(m.vy + scale_down(HALF_GRAVITY as int, dt), dt),
        vx: m.vx,
        vy: m.vy + scale_down(GRAVITY_ACCELERATION as int, dt),
        radius: m.radius,
    }
}

/// Advances the ball by one frame of `dt` milliseconds under gravity.
///
/// The gravity term is exact: `GRAVITY_ACCELERATION` is a multiple of 1000,
/// so converting it from a per-second to a per-frame change loses nothing.
pub fn move_ball(ball: &mut Ball, dt: u64)
    requires
        dt <= DT_MAX,
        ball_wf(old(ball)@),
    ensures
        final(ball)@ == integrate_model(old(ball)@, dt as int),
        final(ball).vy == old(ball).vy + (GRAVITY_ACCELERATION as int) * dt / 1000,
        1000 * (final(ball).vy - old(ball).vy) == (GRAVITY_ACCELERATION as int) * dt,
{
    proof {
        lemma_gravity_scale_exact(dt as int);
    }
    let dx = scale_velocity(ball.vx, dt);
    ball.x = ball.x + dx;
    let half_dvy = scale_velocity(HALF_GRAVITY, dt);
    let mid_vy = ball.vy + half_dvy;
    let dy = scale_velocity(mid_vy, dt);
    ball.y = ball.y + dy;
    let dvy = scale_velocity(GRAVITY_ACCELERATION, dt);
    ball.vy = ball.vy + dvy;
}

/// Converting the gravity constants from per-second rates to per-frame
/// changes divides evenly: no rounding enters the kinematics.
pub proof fn lemma_gravity_scale_exact(dt: int)
    requires
        0 <= dt,
    ensures
        scale_down(GRAVITY_ACCELERATION as int, dt) == -40 * dt,
        scale_down(HALF_GRAVITY as int, dt) == -20 * dt,
        scale_down(GRAVITY_ACCELERATION as int, dt) == (GRAVITY_ACCELERATION as int) * dt / 1000,
{
    assert(40_000 * dt == 1000 * (40 * dt)) by (nonlinear_arith);
    assert(20_000 * dt == 1000 * (20 * dt)) by (nonlinear_arith);
    vstd::arithmetic::div_mod::lemma_div_multiples_vanish(40 * dt, 1000);
    vstd::arithmetic::div_mod::lemma_div_multiples_vanish(20 * dt, 1000);
    assert((-40_000) * dt == -(40_000 * dt)) by (nonlinear_arith);
    assert((GRAVITY_ACCELERATION as int) * dt / 1000 == -40 * dt) by {
        assert((GRAVITY_ACCELERATION as int) * dt == 1000 * (-40 * dt)) by (nonlinear_arith);
        vstd::arithmetic::div_mod::lemma_div_multiples_vanish(-40 * dt, 1000);
    };
}

/// The ball presses against the ceiling while still moving up.
pub open spec fn ceiling_hit(m: BallModel) -> bool {
    m.y >= ARENA_HEIGHT - m.radius && m.vy > 0
}

/// The ball presses against the left wall while still moving left.
pub open spec fn left_wall_hit(m: BallModel) -> bool {
    m.x <= m.radius && m.vx < 0
}

/// The ball presses against the right wall while still moving right.
pub open spec fn right_wall_hit(m: BallModel) -> bool {
    m.x >= ARENA_WIDTH - m.radius && m.vx > 0
}

/// The ceiling/wall reflection chain, ceiling first: at most one of the
/// three reflections fires per frame, and only against motion into the
/// obstacle.
pub open spec fn wall_reflect_model(m: BallModel) -> BallModel {
    if ceiling_hit(m) {
        BallModel { vy: -m.vy, ..m }
    } else if left_wall_hit(m) {
        BallModel { vx: -m.vx, ..m }
    } else if right_wall_hit(m) {
        BallModel { vx: -m.vx, ..m }
    } else {
        m
    }
}

/// Whether the ceiling/wall chain fires at all (and so cues a bounce sound).
pub open spec fn wall_cue(m: BallModel) -> bool {
    ceiling_hit(m) || left_wall_hit(m) || right_wall_hit(m)
}

/// The ball's centre lies within the paddle's box grown by the radius.
pub open spec fn in_paddle_box(m: BallModel, p: PaddleModel) -> bool {
    spec_point_in_rect(
        m.x,
        m.y,
        p.x - PLAYER_HALF_WIDTH - m.radius,
        p.y - PLAYER_HALF_HEIGHT - m.radius,
        p.x + PLAYER_HALF_WIDTH + m.radius,
        p.y + PLAYER_HALF_HEIGHT + m.radius,
    )
}

/// A paddle returns the ball only while the ball is falling onto it.
pub open spec fn paddle_hit(m: BallModel, p: PaddleModel) -> bool {
    in_paddle_box(m, p) && m.vy < 0
}

/// The horizontal velocity leaving a paddle: the incoming magnitude scaled
/// by `f` thousandths (truncated), directed away from the paddle's side.
pub open spec fn bounce_vx_model(vx: int, side: Side, f: int) -> int {
    let mag = (vstd::math::abs(vx) * f) / 1000;
    match side {
        Side::Left => mag,
        Side::Right => -mag,
    }
}

/// How one paddle may change the ball in one frame: a falling ball inside
/// the paddle's box has its vertical velocity flipped and its horizontal
/// velocity rescaled by some factor in `[FACTOR_MIN, FACTOR_MAX)`; any
/// other ball passes unchanged.
pub open spec fn paddle_step_rel(m: BallModel, p: PaddleModel, m2: BallModel) -> bool {
    if paddle_hit(m, p) {
        &&& m2.x == m.x
        &&& m2.y == m.y
        &&& m2.radius == m.radius
        &&& m2.vy == -m.vy
        &&& exists|f: int|
            FACTOR_MIN <= f < FACTOR_MAX && m2.vx == #[trigger] bounce_vx_model(m.vx, p.side, f)
    } else {
        m2 == m
    }
}

/// The whole collision pass: the ceiling/wall chain, then the left paddle,
/// then the right paddle; `cue` says whether any branch fired.
pub open spec fn bounce_rel(
    m0: BallModel,
    lp: PaddleModel,
    rp: PaddleModel,
    m3: BallModel,
    cue: bool,
) -> bool {
    let m1 = wall_reflect_model(m0);
    exists|m2: BallModel|
        #[trigger] paddle_step_rel(m1, lp, m2) && paddle_step_rel(m2, rp, m3) && cue == (wall_cue(
            m0,
        ) || paddle_hit(m1, lp) || paddle_hit(m2, rp))
}

/// Relies on `rand::Rng::gen_range` over `rand::thread_rng()`: a sample
/// from a non-empty half-open integer range lies within that range.
#[verifier::external_body]
fn random_bounce_factor() -> (f: u64)
    ensures
        FACTOR_MIN <= f < FACTOR_MAX,
{
    rand::Rng::gen_range(&mut rand::thread_rng(), FACTOR_MIN..FACTOR_MAX)
}

/// The deterministic part of a paddle bounce: rescales `vx` by `f`
/// thousandths and directs it away from `side`.
pub fn paddle_bounce_vx(vx: i64, side: Side, f: u64) -> (r: i64)
    requires
        FACTOR_MIN <= f < FACTOR_MAX,
        -BOUNCE_MID_MAX <= vx <= BOUNCE_MID_MAX,
    ensures
        r == bounce_vx_model(vx as int, side, f as int),
        -BOUNCE_OUT_MAX <= r <= BOUNCE_OUT_MAX,
        (-BOUNCE_IN_MAX <= vx <= BOUNCE_IN_MAX) ==> -BOUNCE_MID_MAX <= r <= BOUNCE_MID_MAX,
{
    let mag: u64 = if vx >= 0 {
        vx as u64
    } else {
        (-vx) as u64
    };
    proof {
        assert(mag as int * (f as int) <= 7_000_000_000_000_000 * 1_400) by (nonlinear_arith)
            requires
                0 <= mag as int <= 7_000_000_000_000_000,
                0 <= f as int <= 1_400,
        ;
        assert(mag as int <= 5_000_000_000_000_000 ==> mag as int * (f as int)
            <= 5_000_000_000_000_000 * 1_399) by (nonlinear_arith)
            requires
                0 <= mag as int,
                0 <= f as int <= 1_399,
        ;
    }
    let scaled: u64 = (mag * f) / 1000;
    match side {
        Side::Left => scaled as i64,
        Side::Right => -(scaled as i64),
    }
}

/// One paddle's part of the collision pass, against the live ball.
fn bounce_off_paddle(ball: &mut Ball, p: &Paddle) -> (hit: bool)
    requires
        -BOUNCE_MID_MAX <= old(ball).vx <= BOUNCE_MID_MAX,
        -BOUNCE_IN_MAX <= old(ball).vy <= BOUNCE_IN_MAX,
        0 < old(ball).radius <= RADIUS_LIMIT,
        paddle_wf(p@),
    ensures
        paddle_step_rel(old(ball)@, p@, final(ball)@),
        hit == paddle_hit(old(ball)@, p@),
        final(ball).x == old(ball).x,
        final(ball).y == old(ball).y,
        final(ball).radius == old(ball).radius,
        -BOUNCE_OUT_MAX <= final(ball).vx <= BOUNCE_OUT_MAX,
        (-BOUNCE_IN_MAX <= old(ball).vx <= BOUNCE_IN_MAX) ==> (-BOUNCE_MID_MAX <= final(ball).vx
            <= BOUNCE_MID_MAX),
        -BOUNCE_IN_MAX <= final(ball).vy <= BOUNCE_IN_MAX,
{
    let overlaps = point_in_rect(
        ball.x,
        ball.y,
        p.x - PLAYER_HALF_WIDTH - ball.radius,
        p.y - PLAYER_HALF_HEIGHT - ball.radius,
        p.x + PLAYER_HALF_WIDTH + ball.radius,
        p.y + PLAYER_HALF_HEIGHT + ball.radius,
    );
    if overlaps && ball.vy < 0 {
        ball.vy = -ball.vy;
        let f = random_bounce_factor();
        ball.vx = paddle_bounce_vx(ball.vx, p.side, f);
        proof {
            assert((FACTOR_MIN <= f as int) && (f as int) < FACTOR_MAX && ball@.vx == bounce_vx_model(
                old(ball)@.vx,
                p@.side,
                f as int,
            ));
        }
        true
    } else {
        false
    }
}

/// The per-frame collision pass: reflects the ball off the ceiling and the
/// side walls (ceiling first, at most one of the three), then lets each
/// paddle in turn return a falling ball, rescaling its horizontal velocity
/// by a fresh random factor. Returns whether any branch fired, which cues
/// the bounce sound.
pub fn bounce(ball: &mut Ball, left_paddle: &Paddle, right_paddle: &Paddle) -> (cue: bool)
    requires
        -BOUNCE_IN_MAX <= old(ball).vx <= BOUNCE_IN_MAX,
        -BOUNCE_IN_MAX <= old(ball).vy <= BOUNCE_IN_MAX,
        0 < old(ball).radius <= RADIUS_LIMIT,
        paddle_wf(left_paddle@),
        paddle_wf(right_paddle@),
    ensures
        bounce_rel(old(ball)@, left_paddle@, right_paddle@, final(ball)@, cue),
        final(ball).x == old(ball).x,
        final(ball).y == old(ball).y,
        final(ball).radius == old(ball).radius,
        -BOUNCE_OUT_MAX <= final(ball).vx <= BOUNCE_OUT_MAX,
        -BOUNCE_IN_MAX <= final(ball).vy <= BOUNCE_IN_MAX,
{
    let mut fired: bool = false;
    if ball.y >= ARENA_HEIGHT - ball.radius && ball.vy > 0 {
        ball.vy = -ball.vy;
        fired = true;
    } else if ball.x <= ball.radius && ball.vx < 0 {
        ball.vx = -ball.vx;
        fired = true;
    } else if ball.x >= ARENA_WIDTH - ball.radius && ball.vx > 0 {
        ball.vx = -ball.vx;
        fired = true;
    }
    let ghost m1 = ball@;
    proof {
        assert(m1 == wall_reflect_model(old(ball)@));
        assert(fired == wall_cue(old(ball)@));
    }
    let left_hit = bounce_off_paddle(ball, left_paddle);
    let ghost m2 = ball@;
    let right_hit = bounce_off_paddle(ball, right_paddle);
    let cue = fired || left_hit || right_hit;
    proof {
        assert(paddle_step_rel(m1, left_paddle@, m2) && paddle_step_rel(m2, right_paddle@, ball@)
            && cue == (wall_cue(old(ball)@) || paddle_hit(m1, left_paddle@) || paddle_hit(
            m2,
            right_paddle@,
        )));
    }
    cue
}

/// The ball has reached the ground: a scoring event.
pub open spec fn score_hit(m: BallModel) -> bool {
    m.y < m.radius
}

/// The ball after the scoring check: on a scoring event it returns to the
/// arena centre in free fall, sent toward the side that conceded; any other
/// ball passes unchanged.
pub open spec fn scored_ball_model(m: BallModel) -> BallModel {
    if score_hit(m) {
        BallModel {
            x: ARENA_MID_X as int,
            y: ARENA_MID_Y as int,
            vx: if m.x <= ARENA_MID_X {
                vstd::math::abs(m.vx) as int
            } else {
                -(vstd::math::abs(m.vx) as int)
            },
            vy: 0,
            radius: m.radius,
        }
    } else {
        m
    }
}

/// The score counters after the scoring check: the side away from which
/// the ball touched the ground gains the point.
pub open spec fn scored_score_model(m: BallModel, s: ScoreModel) -> ScoreModel {
    if score_hit(m) {
        if m.x <= ARENA_MID_X {
            ScoreModel { left: s.left, right: s.right + 1 }
        } else {
            ScoreModel { left: s.left + 1, right: s.right }
        }
    } else {
        s
    }
}

/// The per-frame scoring check: if the ball's centre has dropped below its
/// radius it has touched the ground; the opposing side scores, the ball is
/// reset to the arena centre in free fall and sent toward the conceding
/// side. Returns whether a point was scored, which cues the score sound.
pub fn scoring(ball: &mut Ball, score: &mut Score) -> (cue: bool)
    requires
        old(ball).vx > i64::MIN,
        old(score).left < u64::MAX,
        old(score).right < u64::MAX,
    ensures
        cue == score_hit(old(ball)@),
        final(ball)@ == scored_ball_model(old(ball)@),
        final(score)@ == scored_score_model(old(ball)@, old(score)@),
{
    if ball.y < ball.radius {
        let speed: i64 = if ball.vx >= 0 {
            ball.vx
        } else {
            -ball.vx
        };
        if ball.x <= ARENA_MID_X {
            score.right = score.right + 1;
            ball.vx = speed;
        } else {
            score.left = score.left + 1;
            ball.vx = -speed;
        }
        ball.x = ARENA_MID_X;
        ball.y = ARENA_MID_Y;
        ball.vy = 0;
        true
    } else {
        false
    }
}

/// The held-key pair turned into a direction: -1, 0 or +1.
pub open spec fn direction(go_left: bool, go_right: bool) -> int {
    (if go_left {
        -1int
    } else {
        0int
    }) + (if go_right {
        1int
    } else {
        0int
    })
}

/// `v` forced into `[lo, hi]`.
pub open spec fn clamp_model(v: int, lo: int, hi: int) -> int {
    if v < lo {
        lo
    } else if v > hi {
        hi
    } else {
        v
    }
}

/// A paddle after one frame of `dt` milliseconds: moved by the held keys'
/// direction at `PLAYER_SPEED`, then clamped into its side's lane.
pub open spec fn move_paddle_model(p: PaddleModel, ks: KeyState, dt: int) -> PaddleModel {
    let dir = direction(
        spec_pressed(ks, p.side.spec_go_left_key()),
        spec_pressed(ks, p.side.spec_go_right_key()),
    );
    let moved = p.x + scale_down(dir * PLAYER_SPEED, dt);
    PaddleModel { x: clamp_model(moved, lane_lo(p.side), lane_hi(p.side)), ..p }
}

/// Moves one paddle by its side's held keys over a frame of `dt`
/// milliseconds, clamped into its lane. A paddle inside its lane stays
/// inside it, whatever is held.
pub fn move_player(paddle: &mut Paddle, keys: &KeyState, dt: u64)
    requires
        dt <= DT_MAX,
        paddle_wf(old(paddle)@),
    ensures
        final(paddle)@ == move_paddle_model(old(paddle)@, *keys, dt as int),
        paddle_wf(final(paddle)@),
{
    let go_left = keys.pressed(paddle.side.go_left_key());
    let go_right = keys.pressed(paddle.side.go_right_key());
    let dir: i64 = (if go_left {
        -1i64
    } else {
        0i64
    }) + (if go_right {
        1i64
    } else {
        0i64
    });
    let offset = scale_velocity(dir * PLAYER_SPEED, dt);
    let moved = paddle.x + offset;
    let (lo, hi) = paddle.side.range();
    paddle.x = if moved < lo {
        lo
    } else if moved > hi {
        hi
    } else {
        moved
    };
}

impl Game {
    /// The startup state: ball served from the centre, each paddle against
    /// its outer wall, both counters at zero.
    pub fn new() -> (g: Game)
        ensures
            g.ball.x == ARENA_MID_X,
            g.ball.y == ARENA_MID_Y,
            g.ball.vx == BALL_VELOCITY_X,
            g.ball.vy == BALL_VELOCITY_Y,
            g.ball.radius == BALL_RADIUS,
            g.left.side == Side::Left,
            g.left.x == PLAYER_HALF_WIDTH,
            g.left.y == PLAYER_HALF_HEIGHT,
            g.right.side == Side::Right,
            g.right.x == ARENA_WIDTH - PLAYER_HALF_WIDTH,
            g.right.y == PLAYER_HALF_HEIGHT,
            g.score.left == 0,
            g.score.right == 0,
            game_wf(g),
    {
        Game {
            ball: Ball::new(),
            left: Paddle::new(Side::Left),
            right: Paddle::new(Side::Right),
            score: Score::new(),
        }
    }

    /// Whether this state is within the bounds `step_frame` asks for.
    pub fn in_bounds(&self) -> (b: bool)
        ensures
            b == game_wf(*self),
    {
        let ball_ok = 0 < self.ball.radius && self.ball.radius <= RADIUS_LIMIT
            && -VEL_LIMIT <= self.ball.vx && self.ball.vx <= VEL_LIMIT
            && -VEL_LIMIT <= self.ball.vy && self.ball.vy <= VEL_LIMIT
            && -POS_LIMIT <= self.ball.x && self.ball.x <= POS_LIMIT
            && -POS_LIMIT <= self.ball.y && self.ball.y <= POS_LIMIT;
        let left_ok = self.left.side == Side::Left && self.left.y == PLAYER_HALF_HEIGHT
            && PLAYER_HALF_WIDTH <= self.left.x && self.left.x <= ARENA_MID_X - PLAYER_HALF_WIDTH;
        let right_ok = self.right.side == Side::Right && self.right.y == PLAYER_HALF_HEIGHT
            && ARENA_MID_X + PLAYER_HALF_WIDTH <= self.right.x
            && self.right.x <= ARENA_WIDTH - PLAYER_HALF_WIDTH;
        let score_ok = self.score.left < u64::MAX && self.score.right < u64::MAX;
        ball_ok && left_ok && right_ok && score_ok
    }

    /// One whole frame, in the order the game runs its systems: paddle
    /// control, ball kinematics, collision resolution, scoring. Returns
    /// `(bounce_cue, score_cue)`: whether to play the bounce and the score
    /// sound.
    pub fn step_frame(&mut self, keys: &KeyState, dt: u64) -> (cues: (bool, bool))
        requires
            dt <= DT_MAX,
            game_wf(*old(self)),
        ensures
            final(self).left@ == move_paddle_model(old(self).left@, *keys, dt as int),
            final(self).right@ == move_paddle_model(old(self).right@, *keys, dt as int),
            final(self).left.side == Side::Left,
            final(self).right.side == Side::Right,
            paddle_wf(final(self).left@),
            paddle_wf(final(self).right@),
            final(self).ball.radius == old(self).ball.radius,
            exists|mid: BallModel|
                #[trigger] bounce_rel(
                    integrate_model(old(self).ball@, dt as int),
                    final(self).left@,
                    final(self).right@,
                    mid,
                    cues.0,
                ) && final(self).ball@ == scored_ball_model(mid) && final(self).score@
                    == scored_score_model(mid, old(self).score@) && cues.1 == score_hit(mid),
    {
        move_player(&mut self.left, keys, dt);
        move_player(&mut self.right, keys, dt);
        move_ball(&mut self.ball, dt);
        let bounce_cue = bounce(&mut self.ball, &self.left, &self.right);
        let ghost mid = self.ball@;
        let score_cue = scoring(&mut self.ball, &mut self.score);
        let cues = (bounce_cue, score_cue);
        proof {
            assert(bounce_rel(
                integrate_model(old(self).ball@, dt as int),
                self.left@,
                self.right@,
                mid,
                cues.0,
            ) && self.ball@ == scored_ball_model(mid) && self.score@ == scored_score_model(
                mid,
                old(self).score@,
            ) && cues.1 == score_hit(mid));
        }
        cues
    }
}

} // verus!
