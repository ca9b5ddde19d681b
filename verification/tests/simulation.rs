use volleyball::game::{bounce, move_ball, move_player, point_in_rect, scoring};
use volleyball::game::{Ball, Game, Key, KeyState, Paddle, Score, Side};

fn center_ball(vx: i64, vy: i64) -> Ball {
    Ball { x: 400_000, y: 300_000, vx, vy, radius: 4_000 }
}

#[test]
fn kinematics_one_step_exact() {
    let mut ball = center_ball(30_000, 0);
    move_ball(&mut ball, 100);
    assert_eq!(ball.x, 403_000);
    assert_eq!(ball.y, 299_800);
    assert_eq!(ball.vx, 30_000);
    assert_eq!(ball.vy, -4_000);
    assert_eq!(ball.radius, 4_000);
}

#[test]
fn kinematics_zero_dt_is_noop() {
    let mut ball = center_ball(30_000, -7_777);
    let before = ball;
    move_ball(&mut ball, 0);
    assert_eq!(ball, before);
}

#[test]
fn kinematics_truncates_toward_zero() {
    let mut ball = center_ball(30_000, 999);
    move_ball(&mut ball, 1);
    // mid-step vy is 999 - 20 = 979; 979 * 1 / 1000 truncates to 0
    assert_eq!(ball.y, 300_000);
    assert_eq!(ball.x, 400_030);
    assert_eq!(ball.vy, 999 - 40);
}

#[test]
fn left_wall_reflects_incoming_ball() {
    let mut ball = Ball { x: 4_000, y: 300_000, vx: -5_000, vy: 0, radius: 4_000 };
    let left = Paddle::new(Side::Left);
    let right = Paddle::new(Side::Right);
    let cue = bounce(&mut ball, &left, &right);
    assert!(cue);
    assert_eq!(ball.vx, 5_000);
    assert_eq!(ball.vy, 0);
}

#[test]
fn left_wall_does_not_rereflect_leaving_ball() {
    let mut ball = Ball { x: 4_000, y: 300_000, vx: 5_000, vy: 0, radius: 4_000 };
    let left = Paddle::new(Side::Left);
    let right = Paddle::new(Side::Right);
    let cue = bounce(&mut ball, &left, &right);
    assert!(!cue);
    assert_eq!(ball.vx, 5_000);
    assert_eq!(ball.vy, 0);
}

#[test]
fn right_wall_reflects_incoming_ball() {
    let mut ball = Ball { x: 796_000, y: 300_000, vx: 5_000, vy: 0, radius: 4_000 };
    let left = Paddle::new(Side::Left);
    let right = Paddle::new(Side::Right);
    let cue = bounce(&mut ball, &left, &right);
    assert!(cue);
    assert_eq!(ball.vx, -5_000);
}

#[test]
fn right_wall_does_not_rereflect_leaving_ball() {
    let mut ball = Ball { x: 796_000, y: 300_000, vx: -5_000, vy: 0, radius: 4_000 };
    let left = Paddle::new(Side::Left);
    let right = Paddle::new(Side::Right);
    let cue = bounce(&mut ball, &left, &right);
    assert!(!cue);
    assert_eq!(ball.vx, -5_000);
}

#[test]
fn ceiling_reflects_rising_ball_only() {
    let left = Paddle::new(Side::Left);
    let right = Paddle::new(Side::Right);

    let mut rising = Ball { x: 400_000, y: 596_000, vx: 0, vy: 9_000, radius: 4_000 };
    assert!(bounce(&mut rising, &left, &right));
    assert_eq!(rising.vy, -9_000);

    let mut falling = Ball { x: 400_000, y: 596_000, vx: 0, vy: -9_000, radius: 4_000 };
    assert!(!bounce(&mut falling, &left, &right));
    assert_eq!(falling.vy, -9_000);
}

#[test]
fn left_paddle_bounce_flips_vy_and_sends_right() {
    let left = Paddle::new(Side::Left);
    let right = Paddle::new(Side::Right);
    for _ in 0..200 {
        let mut ball = Ball { x: 11_000, y: 20_000, vx: -30_000, vy: -10_000, radius: 4_000 };
        let cue = bounce(&mut ball, &left, &right);
        assert!(cue);
        assert_eq!(ball.vy, 10_000);
        // magnitude within [0.6, 1.4) of 30_000, sign toward the right
        assert!(ball.vx >= 18_000, "vx too small: {}", ball.vx);
        assert!(ball.vx < 42_000, "vx too large: {}", ball.vx);
    }
}

#[test]
fn right_paddle_bounce_sends_left() {
    let left = Paddle::new(Side::Left);
    let right = Paddle::new(Side::Right);
    for _ in 0..200 {
        let mut ball = Ball { x: 789_000, y: 20_000, vx: 30_000, vy: -10_000, radius: 4_000 };
        let cue = bounce(&mut ball, &left, &right);
        assert!(cue);
        assert_eq!(ball.vy, 10_000);
        assert!(ball.vx <= -18_000, "vx too small: {}", ball.vx);
        assert!(ball.vx > -42_000, "vx too large: {}", ball.vx);
    }
}

#[test]
fn paddle_ignores_rising_ball() {
    let left = Paddle::new(Side::Left);
    let right = Paddle::new(Side::Right);
    let mut ball = Ball { x: 11_000, y: 20_000, vx: -30_000, vy: 10_000, radius: 4_000 };
    assert!(!bounce(&mut ball, &left, &right));
    assert_eq!(ball.vx, -30_000);
    assert_eq!(ball.vy, 10_000);
}

#[test]
fn point_in_rect_includes_borders() {
    assert!(point_in_rect(0, 0, 0, 0, 10, 10));
    assert!(point_in_rect(10, 10, 0, 0, 10, 10));
    assert!(point_in_rect(5, 5, 0, 0, 10, 10));
    assert!(!point_in_rect(11, 5, 0, 0, 10, 10));
    assert!(!point_in_rect(5, -1, 0, 0, 10, 10));
}

#[test]
fn paddle_clamps_at_left_bound() {
    let mut paddle = Paddle::new(Side::Left);
    assert_eq!(paddle.x, 11_000);
    let keys = KeyState { a: true, d: false, left_arrow: false, right_arrow: false };
    for _ in 0..50 {
        move_player(&mut paddle, &keys, 16);
        assert_eq!(paddle.x, 11_000);
    }
}

#[test]
fn paddle_moves_right_and_clamps_at_lane_end() {
    let mut paddle = Paddle::new(Side::Left);
    let keys = KeyState { a: false, d: true, left_arrow: false, right_arrow: false };
    move_player(&mut paddle, &keys, 1_000);
    assert_eq!(paddle.x, 71_000); // 60 units per second
    for _ in 0..10 {
        move_player(&mut paddle, &keys, 1_000);
    }
    assert_eq!(paddle.x, 389_000); // clamped at the lane's inner end
}

#[test]
fn paddle_both_keys_cancel() {
    let mut paddle = Paddle::new(Side::Right);
    let keys = KeyState { a: false, d: false, left_arrow: true, right_arrow: true };
    move_player(&mut paddle, &keys, 1_000);
    assert_eq!(paddle.x, 789_000);
}

#[test]
fn right_paddle_uses_arrow_keys() {
    let mut paddle = Paddle::new(Side::Right);
    let keys = KeyState { a: true, d: false, left_arrow: true, right_arrow: false };
    move_player(&mut paddle, &keys, 1_000);
    assert_eq!(paddle.x, 729_000); // only the left arrow counts for the right side
}

#[test]
fn side_key_bindings() {
    assert_eq!(Side::Left.go_left_key(), Key::A);
    assert_eq!(Side::Left.go_right_key(), Key::D);
    assert_eq!(Side::Right.go_left_key(), Key::LeftArrow);
    assert_eq!(Side::Right.go_right_key(), Key::RightArrow);
}

#[test]
fn side_lane_ranges() {
    assert_eq!(Side::Left.range(), (11_000, 389_000));
    assert_eq!(Side::Right.range(), (411_000, 789_000));
}

#[test]
fn scoring_at_left_extreme_scores_right() {
    let mut ball = Ball { x: 0, y: 3_999, vx: -5_000, vy: -2_000, radius: 4_000 };
    let mut score = Score { left: 3, right: 4 };
    let cue = scoring(&mut ball, &mut score);
    assert!(cue);
    assert_eq!(score.left, 3);
    assert_eq!(score.right, 5);
    assert_eq!(ball.x, 400_000);
    assert_eq!(ball.y, 300_000);
    assert_eq!(ball.vy, 0);
    assert_eq!(ball.vx, 5_000); // sent back toward the right
}

#[test]
fn scoring_at_right_extreme_scores_left() {
    let mut ball = Ball { x: 800_000, y: 0, vx: 5_000, vy: -2_000, radius: 4_000 };
    let mut score = Score { left: 0, right: 0 };
    let cue = scoring(&mut ball, &mut score);
    assert!(cue);
    assert_eq!(score.left, 1);
    assert_eq!(score.right, 0);
    assert_eq!(ball.x, 400_000);
    assert_eq!(ball.y, 300_000);
    assert_eq!(ball.vy, 0);
    assert_eq!(ball.vx, -5_000); // sent back toward the left
}

#[test]
fn scoring_needs_ground_contact() {
    let mut ball = Ball { x: 0, y: 4_000, vx: -5_000, vy: -2_000, radius: 4_000 };
    let mut score = Score { left: 3, right: 4 };
    let cue = scoring(&mut ball, &mut score);
    assert!(!cue);
    assert_eq!(score, Score { left: 3, right: 4 });
    assert_eq!(ball.y, 4_000);
}

#[test]
fn rally_from_center_scores_once_and_resets() {
    let mut game = Game::new();
    assert_eq!(game.ball.vx, 30_000);
    assert_eq!(game.ball.vy, 0);
    let keys = KeyState::released();
    assert!(!keys.pressed(Key::A) && !keys.pressed(Key::RightArrow));
    let mut frames = 0;
    let mut score_frames = 0;
    while game.score.left + game.score.right == 0 {
        assert!(game.in_bounds());
        let (_, scored) = game.step_frame(&keys, 16);
        if scored {
            score_frames += 1;
        }
        frames += 1;
        assert!(frames < 10_000, "no score after {} frames", frames);
    }
    // drifting right from the centre, the ball lands right of the midline
    assert_eq!(score_frames, 1);
    assert_eq!(game.score.left, 1);
    assert_eq!(game.score.right, 0);
    assert_eq!(game.ball.x, 400_000);
    assert_eq!(game.ball.y, 300_000);
    assert_eq!(game.ball.vy, 0);
    assert_eq!(game.ball.vx, -30_000);
}

#[test]
fn held_key_never_moves_paddle_past_bound_over_frames() {
    let mut game = Game::new();
    let keys = KeyState { a: true, d: false, left_arrow: false, right_arrow: true };
    for _ in 0..100 {
        game.step_frame(&keys, 16);
        assert_eq!(game.left.x, 11_000);
        assert_eq!(game.right.x, 789_000);
    }
}
