//! What one frame step guarantees, stated over the model of the game.

use vstd::prelude::*;
use crate::game::{
    BASE_SPEED, LEFT_REBOUND_X, PADDLE_WIDTH, RIGHT_REBOUND_X, CENTER_X, CENTER_Y, Control, DIR_ONE, GameModel, PADDLE_HEIGHT, SCREEN_HEIGHT,
    SCREEN_WIDTH, SPEED_INCREMENT, after_collision, after_scoring, dir_ok, hits, lemma_step_bound,
    next_frame, paddle_fits,
};
use crate::geometry::Point;

verus! {

/// A paddle moves by its velocity exactly when its new top edge `y + v` is
/// above zero and its new bottom edge `y + v + PADDLE_HEIGHT` is below the
/// field's height; otherwise it stays where it was. It never moves sideways.
pub proof fn lemma_paddle_moves_only_inside(m: GameModel, left: Control, right: Control, serve_dir: Point)
    ensures
        ({
            let n = next_frame(m, left, right, serve_dir);
            let y1 = m.p1_pos.y + m.p1_vel;
            let y2 = m.p2_pos.y + m.p2_vel;
            &&& n.p1_pos.y == (if 0 < y1 && y1 + PADDLE_HEIGHT < SCREEN_HEIGHT {
                y1
            } else {
                m.p1_pos.y
            })
            &&& n.p2_pos.y == (if 0 < y2 && y2 + PADDLE_HEIGHT < SCREEN_HEIGHT {
                y2
            } else {
                m.p2_pos.y
            })
            &&& n.p1_pos.x == m.p1_pos.x
            &&& n.p2_pos.x == m.p2_pos.x
        }),
{
}

/// A paddle that lies strictly inside the field still does after a frame.
pub proof fn lemma_paddles_stay_inside(m: GameModel, left: Control, right: Control, serve_dir: Point)
    requires
        paddle_fits(m.p1_pos.y),
        paddle_fits(m.p2_pos.y),
    ensures
        paddle_fits(next_frame(m, left, right, serve_dir).p1_pos.y),
        paddle_fits(next_frame(m, left, right, serve_dir).p2_pos.y),
{
}

/// The ball's move within a frame starts from where it stands once hits and
/// scoring are done. When plain travel would end above zero or below the
/// field's height, the vertical direction is turned round exactly once and the
/// ball travels along the turned direction, wherever that ends; otherwise it
/// travels along its direction unchanged.
pub proof fn lemma_ball_turns_at_most_once(m: GameModel, left: Control, right: Control, serve_dir: Point)
    ensures
        ({
            let pre = after_scoring(after_collision(m), serve_dir);
            let n = next_frame(m, left, right, serve_dir);
            let s = pre.ball_speed;
            let cand_y = pre.ball_pos.y + pre.ball_dir.y * s;
            &&& (cand_y < 0 || cand_y > SCREEN_HEIGHT) ==> {
                &&& n.ball_dir == Point { x: pre.ball_dir.x, y: -pre.ball_dir.y }
                &&& n.ball_pos == Point {
                    x: pre.ball_pos.x + pre.ball_dir.x * s,
                    y: pre.ball_pos.y - pre.ball_dir.y * s,
                }
            }
            &&& !(cand_y < 0 || cand_y > SCREEN_HEIGHT) ==> {
                &&& n.ball_dir == pre.ball_dir
                &&& n.ball_pos == Point { x: pre.ball_pos.x + pre.ball_dir.x * s, y: cand_y }
            }
        }),
{
    let pre = after_scoring(after_collision(m), serve_dir);
    assert((-pre.ball_dir.y) * pre.ball_speed == -(pre.ball_dir.y * pre.ball_speed)) by (nonlinear_arith);
}

/// A ball that touches no paddle and stands past the left edge is a point for
/// the right player; past the right edge, a point for the left player. Either
/// way the other score stays, the speed is back to `BASE_SPEED`, and the ball
/// leaves the centre of the field along `serve_dir` in the same frame.
pub proof fn lemma_exit_scores_a_point(m: GameModel, left: Control, right: Control, serve_dir: Point)
    requires
        dir_ok(serve_dir),
        !hits(m.ball_pos, m.p1_pos),
        !hits(m.ball_pos, m.p2_pos),
    ensures
        ({
            let n = next_frame(m, left, right, serve_dir);
            let served_at = Point {
                x: CENTER_X + serve_dir.x * BASE_SPEED,
                y: CENTER_Y + serve_dir.y * BASE_SPEED,
            };
            &&& m.ball_pos.x < 0 ==> {
                &&& n.p2_score == m.p2_score + 1
                &&& n.p1_score == m.p1_score
                &&& n.ball_speed == BASE_SPEED
                &&& n.ball_dir == serve_dir
                &&& n.ball_pos == served_at
            }
            &&& m.ball_pos.x > SCREEN_WIDTH ==> {
                &&& n.p1_score == m.p1_score + 1
                &&& n.p2_score == m.p2_score
                &&& n.ball_speed == BASE_SPEED
                &&& n.ball_dir == serve_dir
                &&& n.ball_pos == served_at
            }
        }),
{
    lemma_step_bound(serve_dir.y, BASE_SPEED as int, DIR_ONE as int, BASE_SPEED as int);
}

/// A ball whose box meets the box of one paddle and not the other's is sent
/// back once: its horizontal direction is turned round, its speed rises by
/// `SPEED_INCREMENT`, and no point is scored.
pub proof fn lemma_paddle_hit_bounces_once(m: GameModel, left: Control, right: Control, serve_dir: Point)
    requires
        hits(m.ball_pos, m.p1_pos) != hits(m.ball_pos, m.p2_pos),
    ensures
        ({
            let n = next_frame(m, left, right, serve_dir);
            &&& n.ball_dir.x == -m.ball_dir.x
            &&& n.ball_speed == m.ball_speed + SPEED_INCREMENT
            &&& n.p1_score == m.p1_score
            &&& n.p2_score == m.p2_score
        }),
{
}

/// With the paddles at their places at the two sides, a ball strictly between
/// the two rebound lines is not sent back: its horizontal direction, its speed
/// and the scores stay as they are.
pub proof fn lemma_clear_ball_keeps_course(m: GameModel, left: Control, right: Control, serve_dir: Point)
    requires
        m.p1_pos.x == 0,
        m.p2_pos.x == SCREEN_WIDTH - PADDLE_WIDTH,
        LEFT_REBOUND_X < m.ball_pos.x < RIGHT_REBOUND_X,
    ensures
        ({
            let n = next_frame(m, left, right, serve_dir);
            &&& n.ball_dir.x == m.ball_dir.x
            &&& n.ball_speed == m.ball_speed
            &&& n.p1_score == m.p1_score
            &&& n.p2_score == m.p2_score
        }),
{
}

/// A ball sent back by one paddle moves off it: when the frame after the hit
/// leaves it short of the other paddle's rebound line, the frame after that
/// neither turns its horizontal direction again nor raises its speed again.
/// The paddles stand at their places at the two sides.
pub proof fn lemma_no_second_bounce(
    m: GameModel,
    l0: Control,
    r0: Control,
    d0: Point,
    l1: Control,
    r1: Control,
    d1: Point,
)
    requires
        m.p1_pos.x == 0,
        m.p2_pos.x == SCREEN_WIDTH - PADDLE_WIDTH,
        hits(m.ball_pos, m.p1_pos) != hits(m.ball_pos, m.p2_pos),
        hits(m.ball_pos, m.p1_pos) ==> m.ball_dir.x < 0,
        hits(m.ball_pos, m.p2_pos) ==> m.ball_dir.x > 0,
        0 <= m.ball_speed,
        hits(m.ball_pos, m.p1_pos) ==> next_frame(m, l0, r0, d0).ball_pos.x < RIGHT_REBOUND_X,
        hits(m.ball_pos, m.p2_pos) ==> next_frame(m, l0, r0, d0).ball_pos.x > LEFT_REBOUND_X,
    ensures
        ({
            let s1 = next_frame(m, l0, r0, d0);
            let s2 = next_frame(s1, l1, r1, d1);
            &&& s2.ball_dir.x == s1.ball_dir.x
            &&& s2.ball_speed == s1.ball_speed
        }),
{
    let s1 = next_frame(m, l0, r0, d0);
    let d = m.ball_dir.x;
    let v = m.ball_speed + SPEED_INCREMENT;
    assert(d < 0 ==> (-d) * v > 0) by (nonlinear_arith)
        requires
            v > 0,
    ;
    assert(d > 0 ==> (-d) * v < 0) by (nonlinear_arith)
        requires
            v > 0,
    ;
    lemma_clear_ball_keeps_course(s1, l1, r1, d1);
}

} // verus!
