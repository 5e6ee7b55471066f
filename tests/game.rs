use pong::game::{
    advance_ball, calc_position_change, control_from_keys, is_unit_dir, paddle_velocity, Control, DrawGeometry,
    BALL_RADIUS, BASE_SPEED, CENTER_X, CENTER_Y, DIR_ONE, PADDLE_HEIGHT, PADDLE_START_Y,
    LEFT_REBOUND_X, PADDLE_VELOCITY, PADDLE_WIDTH, RIGHT_REBOUND_X, POS_PER_PIXEL, SCREEN_HEIGHT, SCREEN_WIDTH, SPEED_INCREMENT,
    SPEED_LIMIT, SPEED_PER_PIXEL,
};
use pong::geometry::{Aabb, Vec2};

fn px(n: i64) -> i64 {
    n * POS_PER_PIXEL
}

fn at(x: i64, y: i64) -> Vec2 {
    Vec2::new(px(x), px(y))
}

fn game_with_ball(pos: Vec2, dir: Vec2, speed: i64) -> DrawGeometry {
    let mut g = DrawGeometry::new(Vec2::new(DIR_ONE, 0));
    g.ball_pos = pos;
    g.ball_dir = dir;
    g.ball_speed = speed;
    g
}

#[test]
fn one_quiet_frame_moves_only_the_ball() {
    let mut g = DrawGeometry::new(Vec2::new(DIR_ONE, 0));
    assert_eq!(g.p1_pos, at(0, 475));
    assert_eq!(g.ball_pos, at(900, 600));
    assert_eq!(g.ball_speed, 6 * SPEED_PER_PIXEL);
    g.update(Control::Idle, Control::Idle, Vec2::new(0, DIR_ONE));
    assert_eq!(g.ball_pos, at(906, 600));
    assert_eq!(g.ball_dir, Vec2::new(DIR_ONE, 0));
    assert_eq!(g.p1_pos, at(0, 475));
    assert_eq!(g.p2_pos, at(1775, 475));
    assert_eq!((g.p1_score, g.p2_score), (0, 0));
}

#[test]
fn ball_past_left_edge_scores_for_right_player() {
    let mut g = game_with_ball(Vec2::new(px(-5), px(100)), Vec2::new(-DIR_ONE, 0), 10 * SPEED_PER_PIXEL);
    g.update(Control::Idle, Control::Idle, Vec2::new(DIR_ONE, 0));
    assert_eq!(g.p2_score, 1);
    assert_eq!(g.p1_score, 0);
    assert_eq!(g.ball_speed, 6 * SPEED_PER_PIXEL);
    assert_eq!(g.ball_dir, Vec2::new(DIR_ONE, 0));
    // Served from the centre, and moved once in the same frame.
    assert_eq!(g.ball_pos, Vec2::new(CENTER_X + px(6), CENTER_Y));
}

#[test]
fn ball_past_right_edge_scores_for_left_player() {
    let mut g = game_with_ball(at(1805, 100), Vec2::new(DIR_ONE, 0), 6 * SPEED_PER_PIXEL);
    g.update(Control::Idle, Control::Idle, Vec2::new(0, -DIR_ONE));
    assert_eq!(g.p1_score, 1);
    assert_eq!(g.p2_score, 0);
    assert_eq!(g.ball_pos, at(900, 594));
    assert_eq!(g.ball_speed, BASE_SPEED);
}

#[test]
fn ball_on_edge_scores_nothing() {
    let mut g = game_with_ball(at(0, 100), Vec2::new(DIR_ONE, 0), BASE_SPEED);
    g.update(Control::Idle, Control::Idle, Vec2::new(0, DIR_ONE));
    assert_eq!((g.p1_score, g.p2_score), (0, 0));
    assert_eq!(g.ball_pos, at(6, 100));
}

#[test]
fn left_paddle_hit_bounces_ball_once() {
    let mut g = game_with_ball(at(30, 475), Vec2::new(-DIR_ONE, 0), BASE_SPEED);
    g.update(Control::Idle, Control::Idle, Vec2::new(0, DIR_ONE));
    assert_eq!(g.ball_dir, Vec2::new(DIR_ONE, 0));
    assert_eq!(g.ball_speed, BASE_SPEED + SPEED_INCREMENT);
    assert_eq!(g.ball_speed, 8 * SPEED_PER_PIXEL);
    assert_eq!(g.ball_pos, at(45 + 8, 475));
    assert_eq!((g.p1_score, g.p2_score), (0, 0));
    // Moving away, the ball no longer meets the paddle on the next frame.
    g.update(Control::Idle, Control::Idle, Vec2::new(0, DIR_ONE));
    assert_eq!(g.ball_speed, 8 * SPEED_PER_PIXEL);
    assert_eq!(g.ball_pos, at(61, 475));
}

#[test]
fn right_paddle_hit_bounces_ball_once() {
    let mut g = game_with_ball(at(1760, 600), Vec2::new(DIR_ONE, 0), BASE_SPEED);
    g.update(Control::Idle, Control::Idle, Vec2::new(0, DIR_ONE));
    assert_eq!(g.ball_dir, Vec2::new(-DIR_ONE, 0));
    assert_eq!(g.ball_speed, 8 * SPEED_PER_PIXEL);
    assert_eq!(g.ball_pos, at(1755 - 8, 600));
}

#[test]
fn ball_box_touching_paddle_box_counts_as_hit() {
    // Paddle box reaches x = 25 px, ball box starts at 45 - 20 = 25 px.
    let mut g = game_with_ball(at(45, 700), Vec2::new(-DIR_ONE, 0), BASE_SPEED);
    g.update(Control::Idle, Control::Idle, Vec2::new(0, DIR_ONE));
    assert_eq!(g.ball_speed, 8 * SPEED_PER_PIXEL);
    // Just clear of it: no hit.
    let mut h = game_with_ball(Vec2::new(px(45) + 1, px(700)), Vec2::new(-DIR_ONE, 0), BASE_SPEED);
    h.update(Control::Idle, Control::Idle, Vec2::new(0, DIR_ONE));
    assert_eq!(h.ball_speed, BASE_SPEED);
}

#[test]
fn paddle_move_accepted_inside_field() {
    assert_eq!(calc_position_change(px(475), px(8)), Some(px(483)));
    assert_eq!(calc_position_change(px(475), -px(8)), Some(px(467)));
    assert_eq!(calc_position_change(px(475), 0), Some(px(475)));
}

#[test]
fn paddle_move_refused_at_edges() {
    // New top edge must be above zero.
    assert_eq!(calc_position_change(px(8), -px(8)), None);
    assert_eq!(calc_position_change(px(8) + 1, -px(8)), Some(1));
    // New bottom edge must be below the field's height.
    assert_eq!(calc_position_change(px(942), px(8)), None);
    assert_eq!(calc_position_change(px(942) - 1, px(8)), Some(px(950) - 1));
    assert_eq!(SCREEN_HEIGHT - PADDLE_HEIGHT, px(950));
}

#[test]
fn paddle_stays_against_wall() {
    let mut g = DrawGeometry::new(Vec2::new(DIR_ONE, 0));
    g.p1_pos = at(0, 4);
    g.p1_vel = -PADDLE_VELOCITY;
    g.p2_pos = at(1775, 500);
    g.p2_vel = PADDLE_VELOCITY;
    g.update(Control::Up, Control::Down, Vec2::new(DIR_ONE, 0));
    assert_eq!(g.p1_pos, at(0, 4));
    assert_eq!(g.p2_pos, at(1775, 508));
    assert_eq!(g.p1_vel, -PADDLE_VELOCITY);
    assert_eq!(g.p2_vel, PADDLE_VELOCITY);
}

#[test]
fn controls_set_velocities_for_next_frame() {
    let mut g = DrawGeometry::new(Vec2::new(DIR_ONE, 0));
    g.update(Control::Down, Control::Up, Vec2::new(DIR_ONE, 0));
    assert_eq!(g.p1_pos, at(0, 475));
    assert_eq!(g.p1_vel, px(8));
    assert_eq!(g.p2_vel, -px(8));
    g.update(Control::Idle, Control::Idle, Vec2::new(DIR_ONE, 0));
    assert_eq!(g.p1_pos, at(0, 483));
    assert_eq!(g.p2_pos, at(1775, 467));
    assert_eq!((g.p1_vel, g.p2_vel), (0, 0));
}

#[test]
fn up_key_wins_over_down_key() {
    assert_eq!(control_from_keys(true, true), Control::Up);
    assert_eq!(control_from_keys(true, false), Control::Up);
    assert_eq!(control_from_keys(false, true), Control::Down);
    assert_eq!(control_from_keys(false, false), Control::Idle);
    assert_eq!(paddle_velocity(Control::Up), -px(8));
    assert_eq!(paddle_velocity(Control::Down), px(8));
    assert_eq!(paddle_velocity(Control::Idle), 0);
}

#[test]
fn ball_turns_round_at_top() {
    let (pos, dir) = advance_ball(at(100, 2), Vec2::new(0, -DIR_ONE), BASE_SPEED);
    assert_eq!(dir, Vec2::new(0, DIR_ONE));
    assert_eq!(pos, at(100, 8));
}

#[test]
fn ball_turns_round_at_bottom() {
    let (pos, dir) = advance_ball(at(100, 1198), Vec2::new(600, 800), 10 * SPEED_PER_PIXEL);
    assert_eq!(dir, Vec2::new(600, -800));
    assert_eq!(pos, at(106, 1190));
}

#[test]
fn ball_may_reach_field_edges_without_turning() {
    let (pos, dir) = advance_ball(at(100, 6), Vec2::new(0, -DIR_ONE), BASE_SPEED);
    assert_eq!((pos, dir), (at(100, 0), Vec2::new(0, -DIR_ONE)));
    let (pos, dir) = advance_ball(at(100, 1194), Vec2::new(0, DIR_ONE), BASE_SPEED);
    assert_eq!((pos, dir), (at(100, 1200), Vec2::new(0, DIR_ONE)));
}

#[test]
fn ball_turns_only_once_even_if_still_outside() {
    let (pos, dir) = advance_ball(at(100, -100), Vec2::new(0, DIR_ONE), BASE_SPEED);
    assert_eq!(dir, Vec2::new(0, -DIR_ONE));
    assert_eq!(pos, at(100, -106));
}

#[test]
fn diagonal_travel_is_exact() {
    let (pos, dir) = advance_ball(at(900, 600), Vec2::new(894, 447), BASE_SPEED);
    assert_eq!(dir, Vec2::new(894, 447));
    assert_eq!(pos, Vec2::new(px(900) + 894 * 6000, px(600) + 447 * 6000));
}

#[test]
fn new_game_layout() {
    let g = DrawGeometry::new(Vec2::new(894, 447));
    assert_eq!(g.p1_pos, Vec2::new(0, PADDLE_START_Y));
    assert_eq!(g.p2_pos, Vec2::new(SCREEN_WIDTH - PADDLE_WIDTH, PADDLE_START_Y));
    assert_eq!(g.ball_pos, Vec2::new(CENTER_X, CENTER_Y));
    assert_eq!(g.ball_dir, Vec2::new(894, 447));
    assert_eq!((g.p1_vel, g.p2_vel, g.p1_score, g.p2_score), (0, 0, 0, 0));
    assert!(g.is_within_limits());
}

#[test]
fn limits_are_checked() {
    let mut g = DrawGeometry::new(Vec2::new(DIR_ONE, 0));
    g.ball_speed = SPEED_LIMIT + 1;
    assert!(!g.is_within_limits());
    g.ball_speed = SPEED_LIMIT;
    assert!(g.is_within_limits());
    g.ball_dir = Vec2::new(DIR_ONE + 1, 0);
    assert!(!g.is_within_limits());
    g.ball_dir = Vec2::new(DIR_ONE, 0);
    g.p2_score = u32::MAX;
    assert!(!g.is_within_limits());
}

#[test]
fn draw_gives_shapes_at_positions() {
    let g = DrawGeometry::new(Vec2::new(DIR_ONE, 0));
    let s = g.draw();
    assert_eq!((s.left_paddle.x, s.left_paddle.y), (0, px(475)));
    assert_eq!((s.left_paddle.width, s.left_paddle.height), (px(25), px(250)));
    assert_eq!((s.right_paddle.x, s.right_paddle.y), (px(1775), px(475)));
    assert_eq!((s.ball.x, s.ball.y, s.ball.radius), (px(900), px(600), BALL_RADIUS));
}

#[test]
fn boxes_meet_when_touching() {
    let a = Aabb::from_half_extents(at(0, 0), px(25), px(250));
    let b = Aabb::from_half_extents(at(45, 0), px(20), px(20));
    let c = Aabb::from_half_extents(Vec2::new(px(45) + 1, 0), px(20), px(20));
    let d = Aabb::from_half_extents(at(0, 271), px(20), px(20));
    assert_eq!(a.mins, at(-25, -250));
    assert_eq!(a.maxs, at(25, 250));
    assert!(a.intersects(&b));
    assert!(b.intersects(&a));
    assert!(!a.intersects(&c));
    assert!(!a.intersects(&d));
}

#[test]
fn ball_beside_paddle_rectangle_is_not_bounced() {
    // The left paddle spans y 475..725 px; a ball at y 300 px misses it.
    let mut g = game_with_ball(at(30, 300), Vec2::new(-DIR_ONE, 0), BASE_SPEED);
    g.update(Control::Idle, Control::Idle, Vec2::new(0, DIR_ONE));
    assert_eq!(g.ball_pos, at(24, 300));
    assert_eq!(g.ball_dir, Vec2::new(-DIR_ONE, 0));
    assert_eq!(g.ball_speed, BASE_SPEED);
}

#[test]
fn ball_beside_paddle_rectangle_past_edge_scores() {
    let mut g = game_with_ball(at(-5, 300), Vec2::new(-DIR_ONE, 0), BASE_SPEED);
    g.update(Control::Idle, Control::Idle, Vec2::new(DIR_ONE, 0));
    assert_eq!((g.p1_score, g.p2_score), (0, 1));
    assert_eq!(g.ball_pos, at(906, 600));
    assert_eq!(g.ball_speed, BASE_SPEED);
}

#[test]
fn ball_just_below_paddle_rectangle_is_hit() {
    // Paddle bottom at 725 px, ball box top at 745 - 20 = 725 px.
    let mut g = game_with_ball(at(30, 745), Vec2::new(-DIR_ONE, 0), BASE_SPEED);
    g.update(Control::Idle, Control::Idle, Vec2::new(0, DIR_ONE));
    assert_eq!(g.ball_speed, BASE_SPEED + SPEED_INCREMENT);
    let mut h = game_with_ball(Vec2::new(px(30), px(745) + 1), Vec2::new(-DIR_ONE, 0), BASE_SPEED);
    h.update(Control::Idle, Control::Idle, Vec2::new(0, DIR_ONE));
    assert_eq!(h.ball_speed, BASE_SPEED);
}

#[test]
fn rebound_lines_are_just_outside_paddles() {
    assert_eq!(LEFT_REBOUND_X, px(45));
    assert_eq!(RIGHT_REBOUND_X, px(1755));
}

#[test]
fn serve_directions_must_have_unit_length() {
    assert!(is_unit_dir(Vec2::new(DIR_ONE, 0)));
    assert!(is_unit_dir(Vec2::new(0, -DIR_ONE)));
    assert!(is_unit_dir(Vec2::new(894, 447)));
    assert!(is_unit_dir(Vec2::new(-600, 800)));
    assert!(!is_unit_dir(Vec2::new(0, 0)));
    assert!(!is_unit_dir(Vec2::new(500, 500)));
    assert!(!is_unit_dir(Vec2::new(DIR_ONE + 1, 0)));
    assert!(!is_unit_dir(Vec2::new(DIR_ONE, DIR_ONE)));
    // Rounding tolerance: 999 * 999 = 998001 is within 2000 of 1000000.
    assert!(is_unit_dir(Vec2::new(999, 0)));
    assert!(!is_unit_dir(Vec2::new(998, 0)));
}

#[test]
fn paddle_box_from_corner() {
    let p = Aabb::from_corner(at(0, 475), PADDLE_WIDTH, PADDLE_HEIGHT);
    assert_eq!(p.mins, at(0, 475));
    assert_eq!(p.maxs, at(25, 725));
    let ball = Aabb::from_half_extents(at(30, 300), BALL_RADIUS, BALL_RADIUS);
    assert!(!p.intersects(&ball));
    let ball = Aabb::from_half_extents(at(30, 500), BALL_RADIUS, BALL_RADIUS);
    assert!(p.intersects(&ball));
}
