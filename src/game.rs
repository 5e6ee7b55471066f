//! The game state and its per-frame step.
//!
//! Lengths are counted in position units, `POS_PER_PIXEL` to a pixel. A ball
//! direction is a vector scaled by `DIR_ONE`, and a ball speed is counted in
//! `SPEED_PER_PIXEL` per pixel per frame. Since `DIR_ONE * SPEED_PER_PIXEL ==
//! POS_PER_PIXEL`, one frame of ball travel, `direction * speed`, is exactly in
//! position units.

use vstd::prelude::*;
use crate::geometry::{Aabb, Point, Vec2};

verus! {

pub const POS_PER_PIXEL: i64 = 1_000_000;
pub const SPEED_PER_PIXEL: i64 = 1000;
pub const DIR_ONE: i64 = 1000;

pub const PADDLE_HEIGHT: i64 = 250 * POS_PER_PIXEL;
pub const PADDLE_WIDTH: i64 = 25 * POS_PER_PIXEL;
pub const PADDLE_VELOCITY: i64 = 8 * POS_PER_PIXEL;
pub const BALL_RADIUS: i64 = 20 * POS_PER_PIXEL;

pub const SCREEN_WIDTH: i64 = 1800 * POS_PER_PIXEL;
pub const SCREEN_HEIGHT: i64 = 1200 * POS_PER_PIXEL;

/// Speed of a freshly served ball.
pub const BASE_SPEED: i64 = 6 * SPEED_PER_PIXEL;
/// Speed gained on each paddle hit.
pub const SPEED_INCREMENT: i64 = 2 * SPEED_PER_PIXEL;

/// Where a ball hit by the left paddle is put back.
pub const LEFT_REBOUND_X: i64 = PADDLE_WIDTH + BALL_RADIUS;
/// Where a ball hit by the right paddle is put back.
pub const RIGHT_REBOUND_X: i64 = SCREEN_WIDTH - PADDLE_WIDTH - BALL_RADIUS;

/// The centre of the field.
pub const CENTER_X: i64 = 900 * POS_PER_PIXEL;
pub const CENTER_Y: i64 = 600 * POS_PER_PIXEL;
/// The top edge of a paddle centred vertically on the field.
pub const PADDLE_START_Y: i64 = CENTER_Y - 125 * POS_PER_PIXEL;

/// Largest coordinate or paddle velocity, in absolute value, that a frame
/// step accepts; far beyond any reachable value, it keeps the arithmetic
/// inside `i64`.
pub const COORD_LIMIT: i64 = 1_000_000_000_000_000;
/// Largest ball speed that a frame step accepts.
pub const SPEED_LIMIT: i64 = 1_000_000_000;

/// What a player asks of a paddle in one frame.
#[derive(Clone, Copy, Debug, PartialEq, Eq, Structural)]
pub enum Control {
    Up,
    Down,
    Idle,
}

/// The paddle velocity that a control asks for.
pub open spec fn velocity_of(c: Control) -> int {
    match c {
        Control::Up => -PADDLE_VELOCITY,
        Control::Down => PADDLE_VELOCITY as int,
        Control::Idle => 0,
    }
}

/// The control given by a player's two keys; up wins when both are held.
pub fn control_from_keys(up_held: bool, down_held: bool) -> (r: Control)
    ensures
        r == (if up_held {
            Control::Up
        } else if down_held {
            Control::Down
        } else {
            Control::Idle
        }),
{
    if up_held {
        Control::Up
    } else if down_held {
        Control::Down
    } else {
        Control::Idle
    }
}

/// The paddle velocity, in position units per frame, that a control asks for.
pub fn paddle_velocity(c: Control) -> (r: i64)
    ensures
        r == velocity_of(c),
{
    match c {
        Control::Up => -PADDLE_VELOCITY,
        Control::Down => PADDLE_VELOCITY,
        Control::Idle => 0,
    }
}

/// The game in mathematical integers.
pub struct GameModel {
    pub p1_pos: Point,
    pub p1_vel: int,
    pub p1_score: int,
    pub p2_pos: Point,
    pub p2_vel: int,
    pub p2_score: int,
    pub ball_pos: Point,
    pub ball_dir: Point,
    pub ball_speed: int,
}

/// A paddle whose top edge is at `y` lies strictly inside the field.
pub open spec fn paddle_fits(y: int) -> bool {
    0 < y && y + PADDLE_HEIGHT < SCREEN_HEIGHT
}

/// A paddle moves by its velocity when it still fits afterwards, and stays
/// put otherwise.
pub open spec fn moved_paddle_y(y: int, v: int) -> int {
    if paddle_fits(y + v) {
        y + v
    } else {
        y
    }
}

/// The ball's box meets the paddle's box. The ball's box is centred on the
/// ball and reaches `BALL_RADIUS` along both axes; a paddle's box is the
/// paddle itself, `PADDLE_WIDTH` wide and `PADDLE_HEIGHT` high from its
/// top-left corner. Boxes that only touch meet.
pub open spec fn hits(ball: Point, paddle: Point) -> bool {
    &&& ball.x - BALL_RADIUS <= paddle.x + PADDLE_WIDTH
    &&& ball.y - BALL_RADIUS <= paddle.y + PADDLE_HEIGHT
    &&& ball.x + BALL_RADIUS >= paddle.x
    &&& ball.y + BALL_RADIUS >= paddle.y
}

/// The ball sent back from a paddle: put at `x`, its horizontal direction
/// turned round, its speed raised.
pub open spec fn bounced(m: GameModel, x: int) -> GameModel {
    GameModel {
        ball_pos: Point { x: x, y: m.ball_pos.y },
        ball_dir: Point { x: -m.ball_dir.x, y: m.ball_dir.y },
        ball_speed: m.ball_speed + SPEED_INCREMENT,
        ..m
    }
}

/// Both paddle tests use the ball's box from before either bounce.
pub open spec fn after_collision(m: GameModel) -> GameModel {
    let a = if hits(m.ball_pos, m.p1_pos) {
        bounced(m, LEFT_REBOUND_X as int)
    } else {
        m
    };
    if hits(m.ball_pos, m.p2_pos) {
        bounced(a, RIGHT_REBOUND_X as int)
    } else {
        a
    }
}

/// The ball back at the centre of the field, moving along `dir` at the base
/// speed.
pub open spec fn served(m: GameModel, dir: Point) -> GameModel {
    GameModel {
        ball_pos: Point { x: CENTER_X as int, y: CENTER_Y as int },
        ball_dir: dir,
        ball_speed: BASE_SPEED as int,
        ..m
    }
}

/// A ball past the left edge is a point for the right player, one past the
/// right edge a point for the left player; either way the ball is served
/// again along `dir`.
pub open spec fn after_scoring(m: GameModel, dir: Point) -> GameModel {
    if m.ball_pos.x < 0 {
        served(GameModel { p2_score: m.p2_score + 1, ..m }, dir)
    } else if m.ball_pos.x > SCREEN_WIDTH {
        served(GameModel { p1_score: m.p1_score + 1, ..m }, dir)
    } else {
        m
    }
}

pub open spec fn after_paddles(m: GameModel) -> GameModel {
    GameModel {
        p1_pos: Point { x: m.p1_pos.x, y: moved_paddle_y(m.p1_pos.y, m.p1_vel) },
        p2_pos: Point { x: m.p2_pos.x, y: moved_paddle_y(m.p2_pos.y, m.p2_vel) },
        ..m
    }
}

/// One frame of travel from `pos` along `dir` at `speed`.
pub open spec fn travel(pos: Point, dir: Point, speed: int) -> Point {
    Point { x: pos.x + dir.x * speed, y: pos.y + dir.y * speed }
}

pub open spec fn outside_field_y(y: int) -> bool {
    y < 0 || y > SCREEN_HEIGHT
}

/// The direction the ball moves along this frame: turned round vertically,
/// once, when plain travel would leave the field at the top or bottom.
pub open spec fn ball_dir_after_move(pos: Point, dir: Point, speed: int) -> Point {
    if outside_field_y(travel(pos, dir, speed).y) {
        Point { x: dir.x, y: -dir.y }
    } else {
        dir
    }
}

pub open spec fn after_ball(m: GameModel) -> GameModel {
    let d = ball_dir_after_move(m.ball_pos, m.ball_dir, m.ball_speed);
    GameModel { ball_pos: travel(m.ball_pos, d, m.ball_speed), ball_dir: d, ..m }
}

pub open spec fn after_controls(m: GameModel, left: Control, right: Control) -> GameModel {
    GameModel { p1_vel: velocity_of(left), p2_vel: velocity_of(right), ..m }
}

/// One frame: paddle hits, scoring, paddle travel, ball travel, and last the
/// velocities that the controls ask for. `serve_dir` is the direction a ball is
/// served along if a point is scored.
pub open spec fn next_frame(m: GameModel, left: Control, right: Control, serve_dir: Point) -> GameModel {
    after_controls(after_ball(after_paddles(after_scoring(after_collision(m), serve_dir))), left, right)
}

pub open spec fn coord_ok(p: Point) -> bool {
    -COORD_LIMIT <= p.x <= COORD_LIMIT && -COORD_LIMIT <= p.y <= COORD_LIMIT
}

/// A direction no longer than one along either axis.
pub open spec fn dir_ok(d: Point) -> bool {
    -DIR_ONE <= d.x <= DIR_ONE && -DIR_ONE <= d.y <= DIR_ONE
}

/// A direction of length one, up to the rounding of each component to a
/// whole number of `DIR_ONE`ths.
pub open spec fn unit_dir(d: Point) -> bool {
    &&& dir_ok(d)
    &&& DIR_ONE * DIR_ONE - 2 * DIR_ONE <= d.x * d.x + d.y * d.y <= DIR_ONE * DIR_ONE + 2 * DIR_ONE
}

/// Whether `d` is a direction that a ball may be served along.
pub fn is_unit_dir(d: Vec2) -> (r: bool)
    ensures
        r == unit_dir(d@),
{
    if d.x < -DIR_ONE || d.x > DIR_ONE || d.y < -DIR_ONE || d.y > DIR_ONE {
        return false;
    }
    proof {
        lemma_square_bound(d.x as int, DIR_ONE as int);
        lemma_square_bound(d.y as int, DIR_ONE as int);
    }
    let len2 = d.x * d.x + d.y * d.y;
    DIR_ONE * DIR_ONE - 2 * DIR_ONE <= len2 && len2 <= DIR_ONE * DIR_ONE + 2 * DIR_ONE
}

/// The state's values leave room for one more frame step.
pub open spec fn within_limits(m: GameModel) -> bool {
    &&& coord_ok(m.p1_pos)
    &&& coord_ok(m.p2_pos)
    &&& coord_ok(m.ball_pos)
    &&& -COORD_LIMIT <= m.p1_vel <= COORD_LIMIT
    &&& -COORD_LIMIT <= m.p2_vel <= COORD_LIMIT
    &&& dir_ok(m.ball_dir)
    &&& 0 <= m.ball_speed <= SPEED_LIMIT
    &&& m.p1_score < u32::MAX
    &&& m.p2_score < u32::MAX
}

/// The state at the start of a game, with the ball served along `dir`.
pub open spec fn initial_model(dir: Point) -> GameModel {
    GameModel {
        p1_pos: Point { x: 0, y: PADDLE_START_Y as int },
        p1_vel: 0,
        p1_score: 0,
        p2_pos: Point {
            x: (SCREEN_WIDTH - PADDLE_WIDTH) as int,
            y: PADDLE_START_Y as int,
        },
        p2_vel: 0,
        p2_score: 0,
        ball_pos: Point { x: CENTER_X as int, y: CENTER_Y as int },
        ball_dir: dir,
        ball_speed: BASE_SPEED as int,
    }
}


/// Where a paddle whose top edge is at `y_pos` goes when moved by `y_vel`:
/// `Some` of the new top edge when the paddle still lies strictly inside the
/// field there, `None` when the move is refused.
pub fn calc_position_change(y_pos: i64, y_vel: i64) -> (r: Option<i64>)
    requires
        i64::MIN <= y_pos + y_vel <= i64::MAX,
    ensures
        r is Some == paddle_fits(y_pos + y_vel),
        r matches Some(n) ==> n == y_pos + y_vel,
{
    let new_pos = y_pos + y_vel;
    if new_pos > 0 && new_pos < SCREEN_HEIGHT - PADDLE_HEIGHT {
        Some(new_pos)
    } else {
        None
    }
}

/// The square of a number within `dmax` of zero is at most `dmax * dmax`.
pub proof fn lemma_square_bound(d: int, dmax: int) by (nonlinear_arith)
    requires
        -dmax <= d <= dmax,
    ensures
        0 <= d * d <= dmax * dmax,
{
}

/// A direction component times a speed stays within the product of their
/// bounds, and turning the component round turns the product round.
pub proof fn lemma_step_bound(d: int, s: int, dmax: int, smax: int) by (nonlinear_arith)
    requires
        -dmax <= d <= dmax,
        0 <= s <= smax,
    ensures
        -(dmax * smax) <= d * s <= dmax * smax,
        (-d) * s == -(d * s),
{
}

/// Moves a ball at `pos` along `dir` at `speed` for one frame. When plain
/// travel would leave the field at the top or bottom, the vertical direction is
/// turned round once and the ball travels along that instead; no further
/// correction is made. Returns the new position and the new direction.
pub fn advance_ball(pos: Vec2, dir: Vec2, speed: i64) -> (r: (Vec2, Vec2))
    requires
        coord_ok(pos@),
        dir_ok(dir@),
        0 <= speed <= SPEED_LIMIT + 2 * SPEED_INCREMENT,
    ensures
        r.1@ == ball_dir_after_move(pos@, dir@, speed as int),
        r.0@ == travel(pos@, r.1@, speed as int),
{
    proof {
        lemma_step_bound(dir.x as int, speed as int, DIR_ONE as int, SPEED_LIMIT + 2 * SPEED_INCREMENT);
        lemma_step_bound(dir.y as int, speed as int, DIR_ONE as int, SPEED_LIMIT + 2 * SPEED_INCREMENT);
    }
    let step_x = dir.x * speed;
    let step_y = dir.y * speed;
    let new_y = pos.y + step_y;
    if new_y < 0 || new_y > SCREEN_HEIGHT {
        let d = Vec2 { x: dir.x, y: -dir.y };
        (Vec2 { x: pos.x + step_x, y: pos.y - step_y }, d)
    } else {
        (Vec2 { x: pos.x + step_x, y: new_y }, dir)
    }
}

/// A paddle drawn as a rectangle from its top-left corner.
#[derive(Clone, Copy, Debug, PartialEq, Eq, Structural)]
pub struct Rect {
    pub x: i64,
    pub y: i64,
    pub width: i64,
    pub height: i64,
}

/// The ball drawn as a circle around its centre.
#[derive(Clone, Copy, Debug, PartialEq, Eq, Structural)]
pub struct Circle {
    pub x: i64,
    pub y: i64,
    pub radius: i64,
}

/// What one frame shows, in position units.
#[derive(Clone, Copy, Debug, PartialEq, Eq, Structural)]
pub struct Scene {
    pub left_paddle: Rect,
    pub right_paddle: Rect,
    pub ball: Circle,
}

/// The whole game: two paddles, each with a position (its top-left corner), a
/// vertical velocity and a score, and the ball with its centre, direction and
/// speed.
#[derive(Clone, Copy, Debug, PartialEq, Eq, Structural)]
pub struct DrawGeometry {
    pub p1_pos: Vec2,
    pub p1_vel: i64,
    pub p1_score: u32,
    pub p2_pos: Vec2,
    pub p2_vel: i64,
    pub p2_score: u32,
    pub ball_pos: Vec2,
    pub ball_dir: Vec2,
    pub ball_speed: i64,
}

impl View for DrawGeometry {
    type V = GameModel;

    open spec fn view(&self) -> GameModel {
        GameModel {
            p1_pos: self.p1_pos@,
            p1_vel: self.p1_vel as int,
            p1_score: self.p1_score as int,
            p2_pos: self.p2_pos@,
            p2_vel: self.p2_vel as int,
            p2_score: self.p2_score as int,
            ball_pos: self.ball_pos@,
            ball_dir: self.ball_dir@,
            ball_speed: self.ball_speed as int,
        }
    }
}

impl DrawGeometry {
    /// A new game: paddles centred vertically at either side, scores at zero,
    /// and the ball at the centre at the base speed, served along `serve_dir`.
    pub fn new(serve_dir: Vec2) -> (r: DrawGeometry)
        requires
            unit_dir(serve_dir@),
        ensures
            r@ == initial_model(serve_dir@),
            within_limits(r@),
    {
        DrawGeometry {
            p1_pos: Vec2 { x: 0, y: PADDLE_START_Y },
            p1_vel: 0,
            p1_score: 0,
            p2_pos: Vec2 { x: SCREEN_WIDTH - PADDLE_WIDTH, y: PADDLE_START_Y },
            p2_vel: 0,
            p2_score: 0,
            ball_pos: Vec2 { x: CENTER_X, y: CENTER_Y },
            ball_dir: serve_dir,
            ball_speed: BASE_SPEED,
        }
    }

    /// Whether the state leaves room for one more `update`.
    pub fn is_within_limits(&self) -> (r: bool)
        ensures
            r == within_limits(self@),
    {
        -COORD_LIMIT <= self.p1_pos.x && self.p1_pos.x <= COORD_LIMIT
            && -COORD_LIMIT <= self.p1_pos.y && self.p1_pos.y <= COORD_LIMIT
            && -COORD_LIMIT <= self.p2_pos.x && self.p2_pos.x <= COORD_LIMIT
            && -COORD_LIMIT <= self.p2_pos.y && self.p2_pos.y <= COORD_LIMIT
            && -COORD_LIMIT <= self.ball_pos.x && self.ball_pos.x <= COORD_LIMIT
            && -COORD_LIMIT <= self.ball_pos.y && self.ball_pos.y <= COORD_LIMIT
            && -COORD_LIMIT <= self.p1_vel && self.p1_vel <= COORD_LIMIT
            && -COORD_LIMIT <= self.p2_vel && self.p2_vel <= COORD_LIMIT
            && -DIR_ONE <= self.ball_dir.x && self.ball_dir.x <= DIR_ONE
            && -DIR_ONE <= self.ball_dir.y && self.ball_dir.y <= DIR_ONE
            && 0 <= self.ball_speed && self.ball_speed <= SPEED_LIMIT
            && self.p1_score < u32::MAX && self.p2_score < u32::MAX
    }

    fn collide(&mut self)
        requires
            within_limits(old(self)@),
        ensures
            final(self)@ == after_collision(old(self)@),
    {
        let p1_box = Aabb::from_corner(self.p1_pos, PADDLE_WIDTH, PADDLE_HEIGHT);
        let p2_box = Aabb::from_corner(self.p2_pos, PADDLE_WIDTH, PADDLE_HEIGHT);
        let ball_box = Aabb::from_half_extents(self.ball_pos, BALL_RADIUS, BALL_RADIUS);
        let hit_left = ball_box.intersects(&p1_box);
        let hit_right = ball_box.intersects(&p2_box);
        if hit_left {
            self.ball_pos.x = LEFT_REBOUND_X;
            self.ball_dir.x = -self.ball_dir.x;
            self.ball_speed = self.ball_speed + SPEED_INCREMENT;
        }
        if hit_right {
            self.ball_pos.x = RIGHT_REBOUND_X;
            self.ball_dir.x = -self.ball_dir.x;
            self.ball_speed = self.ball_speed + SPEED_INCREMENT;
        }
    }

    fn score(&mut self, serve_dir: Vec2)
        requires
            old(self).p1_score < u32::MAX,
            old(self).p2_score < u32::MAX,
        ensures
            final(self)@ == after_scoring(old(self)@, serve_dir@),
    {
        if self.ball_pos.x < 0 {
            self.p2_score = self.p2_score + 1;
            self.ball_pos = Vec2 { x: CENTER_X, y: CENTER_Y };
            self.ball_dir = serve_dir;
            self.ball_speed = BASE_SPEED;
        } else if self.ball_pos.x > SCREEN_WIDTH {
            self.p1_score = self.p1_score + 1;
            self.ball_pos = Vec2 { x: CENTER_X, y: CENTER_Y };
            self.ball_dir = serve_dir;
            self.ball_speed = BASE_SPEED;
        }
    }

    fn move_paddles(&mut self)
        requires
            coord_ok(old(self).p1_pos@),
            coord_ok(old(self).p2_pos@),
            -COORD_LIMIT <= old(self).p1_vel <= COORD_LIMIT,
            -COORD_LIMIT <= old(self).p2_vel <= COORD_LIMIT,
        ensures
            final(self)@ == after_paddles(old(self)@),
    {
        if let Some(new_pos) = calc_position_change(self.p1_pos.y, self.p1_vel) {
            self.p1_pos.y = new_pos;
        }
        if let Some(new_pos) = calc_position_change(self.p2_pos.y, self.p2_vel) {
            self.p2_pos.y = new_pos;
        }
    }

    fn move_ball(&mut self)
        requires
            coord_ok(old(self).ball_pos@),
            dir_ok(old(self).ball_dir@),
            0 <= old(self).ball_speed <= SPEED_LIMIT + 2 * SPEED_INCREMENT,
        ensures
            final(self)@ == after_ball(old(self)@),
    {
        let (pos, dir) = advance_ball(self.ball_pos, self.ball_dir, self.ball_speed);
        self.ball_pos = pos;
        self.ball_dir = dir;
    }

    /// Advances the game by one frame. `left` and `right` are what the two
    /// players ask of their paddles during this frame; they set the velocities
    /// that the next frame moves the paddles by. `serve_dir` is the direction
    /// along which the ball is served again should a point be scored.
    pub fn update(&mut self, left: Control, right: Control, serve_dir: Vec2)
        requires
            within_limits(old(self)@),
            unit_dir(serve_dir@),
        ensures
            final(self)@ == next_frame(old(self)@, left, right, serve_dir@),
    {
        self.collide();
        self.score(serve_dir);
        self.move_paddles();
        self.move_ball();
        self.p1_vel = paddle_velocity(left);
        self.p2_vel = paddle_velocity(right);
    }

    /// The shapes that show the current state: each paddle as a rectangle from
    /// its position, the ball as a circle around its centre.
    pub fn draw(&self) -> (r: Scene)
        ensures
            r.left_paddle == (Rect {
                x: self.p1_pos.x,
                y: self.p1_pos.y,
                width: PADDLE_WIDTH,
                height: PADDLE_HEIGHT,
            }),
            r.right_paddle == (Rect {
                x: self.p2_pos.x,
                y: self.p2_pos.y,
                width: PADDLE_WIDTH,
                height: PADDLE_HEIGHT,
            }),
            r.ball == (Circle { x: self.ball_pos.x, y: self.ball_pos.y, radius: BALL_RADIUS }),
    {
        Scene {
            left_paddle: Rect {
                x: self.p1_pos.x,
                y: self.p1_pos.y,
                width: PADDLE_WIDTH,
                height: PADDLE_HEIGHT,
            },
            right_paddle: Rect {
                x: self.p2_pos.x,
                y: self.p2_pos.y,
                width: PADDLE_WIDTH,
                height: PADDLE_HEIGHT,
            },
            ball: Circle { x: self.ball_pos.x, y: self.ball_pos.y, radius: BALL_RADIUS },
        }
    }
}

} // verus!
