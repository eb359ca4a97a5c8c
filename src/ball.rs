//! The ball: motion, paddle and wall collisions, goal detection, and the
//! relaunch after a point.
use vstd::prelude::*;
use rand::Rng;
use crate::field::Field;
use crate::geometry::{in_limit, is_colliding, length_in_limit, overlaps, Extent, Point, LIMIT, SUBUNITS};
use crate::paddle::{Paddle, PADDLE_HALF_WIDTH};
use crate::scoreboard::ScoreEvent;
use crate::speed::{displacement, frame_displacement, get_speed_multiplier, speed_multiplier, MAX_STEP};

verus! {

/// Half the side of the ball, in sub-units: the ball is as wide as a paddle.
pub const BALL_HALF_SIZE: i64 = PADDLE_HALF_WIDTH;

/// Speed of the ball on each axis at launch, in sub-units per second.
pub const INITIAL_BALL_SPEED: i64 = 125 * SUBUNITS;

/// Velocity, in sub-units per second.
#[derive(Clone, Copy, Debug, PartialEq, Eq, Structural)]
pub struct Velocity {
    pub x: i64,
    pub y: i64,
}

/// Paddle hits in the current rally.
#[derive(Clone, Copy, Debug, PartialEq, Eq, Structural)]
pub struct BounceCount(pub u32);

/// The ball's state.
#[derive(Clone, Copy, Debug, PartialEq, Eq, Structural)]
pub struct Ball {
    pub pos: Point,
    pub vel: Velocity,
    pub bounces: BounceCount,
    pub size: Extent,
}

impl Ball {
    pub open spec fn wf(&self) -> bool {
        &&& self.pos.wf()
        &&& in_limit(self.vel.x as int)
        &&& in_limit(self.vel.y as int)
        &&& self.size.wf()
    }

    /// Whether the ball's values are within the game's range.
    pub fn in_range(&self) -> (r: bool)
        ensures
            r == self.wf(),
    {
        self.pos.in_range() && -LIMIT <= self.vel.x && self.vel.x <= LIMIT && -LIMIT <= self.vel.y
            && self.vel.y <= LIMIT && self.size.in_range()
    }
}

/// A new ball at the centre, heading up and to the right at `speed` on each axis.
pub fn spawn_ball(size: Extent, speed: i64) -> (r: Ball)
    requires
        size.wf(),
        length_in_limit(speed as int),
    ensures
        r.pos.x == 0 && r.pos.y == 0,
        r.vel.x == speed && r.vel.y == speed,
        r.bounces.0 == 0,
        r.size == size,
        r.wf(),
{
    Ball { pos: Point::origin(), vel: Velocity { x: speed, y: speed }, bounces: BounceCount(0), size }
}

/// The ball after flying for `dt` microseconds at its velocity scaled by the
/// rally's speed multiplier.
pub open spec fn moved(b: Ball, dt: int) -> Ball {
    let m = speed_multiplier(b.bounces.0 as int);
    Ball {
        pos: Point {
            x: (b.pos.x + displacement(b.vel.x as int, dt, m.x as int)) as i64,
            y: (b.pos.y + displacement(b.vel.y as int, dt, m.y as int)) as i64,
        },
        ..b
    }
}

/// The ball touches the left paddle while moving toward it.
pub open spec fn hits_left(b: Ball, left: Paddle) -> bool {
    overlaps(b.pos, b.size, left.pos, left.size) && b.vel.x < 0
}

/// The ball touches the right paddle while moving toward it.
pub open spec fn hits_right(b: Ball, right: Paddle) -> bool {
    overlaps(b.pos, b.size, right.pos, right.size) && b.vel.x > 0
}

/// The ball sent back from a paddle: horizontal velocity reversed, centre at
/// `x`, one more bounce.
pub open spec fn bounced(b: Ball, x: int) -> Ball {
    Ball {
        pos: Point { x: x as i64, ..b.pos },
        vel: Velocity { x: (-b.vel.x) as i64, ..b.vel },
        bounces: BounceCount((b.bounces.0 + 1) as u32),
        ..b
    }
}

/// Paddle collision, the left paddle first: at most one paddle sends the ball
/// back, and the ball ends flush against that paddle's inner edge.
pub open spec fn after_paddles(b: Ball, left: Paddle, right: Paddle) -> Ball {
    if hits_left(b, left) {
        bounced(b, left.pos.x + left.size.half_w + b.size.half_w)
    } else if hits_right(b, right) {
        bounced(b, right.pos.x - right.size.half_w - b.size.half_w)
    } else {
        b
    }
}

/// Wall collision: past the top wall the ball heads down with its top edge on
/// the wall; past the bottom wall it heads up with its bottom edge on the wall.
pub open spec fn after_walls(b: Ball, field: Field) -> Ball {
    let top = field.half_h - b.size.half_h;
    let bottom = -field.half_h + b.size.half_h;
    if b.pos.y > top {
        Ball {
            pos: Point { y: top as i64, ..b.pos },
            vel: Velocity { y: (if b.vel.y >= 0 { -b.vel.y } else { b.vel.y as int }) as i64, ..b.vel },
            ..b
        }
    } else if b.pos.y < bottom {
        Ball {
            pos: Point { y: bottom as i64, ..b.pos },
            vel: Velocity { y: (if b.vel.y >= 0 { b.vel.y as int } else { -b.vel.y }) as i64, ..b.vel },
            ..b
        }
    } else {
        b
    }
}

/// One frame of the ball: flight, then paddles, then walls.
pub open spec fn frame(b: Ball, left: Paddle, right: Paddle, dt: int, field: Field) -> Ball {
    after_walls(after_paddles(moved(b, dt), left, right), field)
}

/// The point that a ball at `b` ends the rally with, if it is past a goal line.
pub open spec fn score_event(b: Ball, field: Field) -> Option<ScoreEvent> {
    if b.pos.x > field.half_w {
        Some(ScoreEvent::LeftScored)
    } else if b.pos.x < -field.half_w {
        Some(ScoreEvent::RightScored)
    } else {
        None
    }
}

/// What `update_ball` needs of its inputs: values in range and room for one
/// more bounce.
pub open spec fn frame_ready(b: Ball, left: Paddle, right: Paddle, field: Field) -> bool {
    &&& b.wf()
    &&& left.wf()
    &&& right.wf()
    &&& field.wf()
    &&& b.bounces.0 < u32::MAX
}

/// Whether `update_ball` may run on these values: the check that a caller
/// outside verified code makes before each frame.
pub fn ready_for_frame(ball: &Ball, left: &Paddle, right: &Paddle, field: Field) -> (r: bool)
    ensures
        r == frame_ready(*ball, *left, *right, field),
{
    ball.in_range() && left.in_range() && right.in_range() && field.in_range() && ball.bounces.0 < u32::MAX
}

/// Sends the ball back from a paddle it touches while moving toward it, the
/// left paddle first; a hit reverses the horizontal velocity, puts the ball
/// flush against the paddle and counts a bounce.
pub fn handle_paddle_collisions(ball: &mut Ball, left: Paddle, right: Paddle)
    requires
        in_limit(old(ball).vel.x as int),
        old(ball).size.wf(),
        left.wf(),
        right.wf(),
        old(ball).bounces.0 < u32::MAX,
    ensures
        *final(ball) == after_paddles(*old(ball), left, right),
{
    if is_colliding(ball.pos, ball.size, left.pos, left.size) && ball.vel.x < 0 {
        ball.vel.x = -ball.vel.x;
        ball.pos.x = left.pos.x + left.size.half_w + ball.size.half_w;
        ball.bounces.0 = ball.bounces.0 + 1;
    } else if is_colliding(ball.pos, ball.size, right.pos, right.size) && ball.vel.x > 0 {
        ball.vel.x = -ball.vel.x;
        ball.pos.x = right.pos.x - right.size.half_w - ball.size.half_w;
        ball.bounces.0 = ball.bounces.0 + 1;
    }
}

/// Turns the ball back from the top or bottom wall and puts it on the wall.
pub fn handle_wall_collisions(ball: &mut Ball, field: Field)
    requires
        in_limit(old(ball).vel.y as int),
        old(ball).size.wf(),
        field.wf(),
    ensures
        *final(ball) == after_walls(*old(ball), field),
{
    let top: i64 = field.half_h - ball.size.half_h;
    let bottom: i64 = -field.half_h + ball.size.half_h;
    if ball.pos.y > top {
        ball.vel.y = if ball.vel.y >= 0 { -ball.vel.y } else { ball.vel.y };
        ball.pos.y = top;
    } else if ball.pos.y < bottom {
        ball.vel.y = if ball.vel.y >= 0 { ball.vel.y } else { -ball.vel.y };
        ball.pos.y = bottom;
    }
}

/// The point scored when the ball is past a goal line: past the right one the
/// left player scores, past the left one the right player does.
pub fn check_for_scoring(ball: &Ball, field: Field) -> (r: Option<ScoreEvent>)
    ensures
        r == score_event(*ball, field),
        -field.half_w <= ball.pos.x <= field.half_w ==> r.is_none(),
{
    if ball.pos.x > field.half_w {
        Some(ScoreEvent::LeftScored)
    } else if (ball.pos.x as i128) < -(field.half_w as i128) {
        Some(ScoreEvent::RightScored)
    } else {
        None
    }
}

/// One frame of the ball: moves it by its velocity over `dt_micros`, resolves
/// paddle and wall collisions, and returns the point scored, if any. Until
/// both paddles exist it does nothing.
pub fn update_ball(ball: &mut Ball, left: Option<Paddle>, right: Option<Paddle>, dt_micros: u32, field: Field) -> (r: Option<ScoreEvent>)
    requires
        left.is_some() && right.is_some() ==> frame_ready(*old(ball), left.unwrap(), right.unwrap(), field),
    ensures
        left.is_some() && right.is_some() ==> {
            &&& *final(ball) == frame(*old(ball), left.unwrap(), right.unwrap(), dt_micros as int, field)
            &&& r == score_event(*final(ball), field)
        },
        left.is_none() || right.is_none() ==> *final(ball) == *old(ball) && r.is_none(),
        -field.half_w <= final(ball).pos.x <= field.half_w ==> r.is_none(),
{
    let (left, right) = match (left, right) {
        (Some(l), Some(r)) => (l, r),
        _ => {
            return None;
        },
    };
    let m = get_speed_multiplier(ball.bounces.0);
    let dx = frame_displacement(ball.vel.x, dt_micros, m.x);
    let dy = frame_displacement(ball.vel.y, dt_micros, m.y);
    proof {
        assert(MAX_STEP + LIMIT < i64::MAX);
    }
    ball.pos.x = ball.pos.x + dx;
    ball.pos.y = ball.pos.y + dy;
    handle_paddle_collisions(ball, left, right);
    handle_wall_collisions(ball, field);
    check_for_scoring(ball, field)
}

/// Horizontal launch velocity after `event`: toward the side that did not
/// score, i.e. right after a left point and left after a right point.
pub open spec fn launch_x(event: ScoreEvent, speed: int) -> int {
    match event {
        ScoreEvent::LeftScored => speed,
        ScoreEvent::RightScored => -speed,
    }
}

/// The ball relaunched from the centre after `event`, heading up if `up`, with
/// `speed` on each axis and a fresh rally.
pub open spec fn relaunched(b: Ball, event: ScoreEvent, up: bool, speed: int) -> Ball {
    Ball {
        pos: Point { x: 0, y: 0 },
        vel: Velocity { x: launch_x(event, speed) as i64, y: (if up { speed } else { -speed }) as i64 },
        bounces: BounceCount(0),
        size: b.size,
    }
}

/// Puts the ball back at the centre after `event` with a fresh rally, heading
/// toward the side that did not score, up if `up` and down otherwise.
pub fn reset_ball(ball: &mut Ball, event: ScoreEvent, up: bool, launch_speed: i64)
    requires
        length_in_limit(launch_speed as int),
    ensures
        *final(ball) == relaunched(*old(ball), event, up, launch_speed as int),
        old(ball).size.wf() ==> final(ball).wf(),
{
    ball.pos = Point::origin();
    ball.bounces = BounceCount(0);
    ball.vel.x = match event {
        ScoreEvent::LeftScored => launch_speed,
        ScoreEvent::RightScored => -launch_speed,
    };
    ball.vel.y = if up { launch_speed } else { -launch_speed };
}

/// Relies on rand's thread-local generator (`rand::rng`) and on
/// `Rng::random_ratio(1, 2)`, which draws a fair coin and cannot panic for
/// these arguments. Nothing is promised of the outcome.
#[verifier::external_body]
fn coin_flip() -> (r: bool) {
    rand::rng().random_ratio(1, 2)
}

/// Handles each pending score event in order: the ball is relaunched from the
/// centre toward the side that did not score, up or down at random.
pub fn reset_ball_system(ball: &mut Ball, events: &Vec<ScoreEvent>, launch_speed: i64)
    requires
        length_in_limit(launch_speed as int),
    ensures
        events@.len() == 0 ==> *final(ball) == *old(ball),
        events@.len() > 0 ==> {
            &&& final(ball).pos.x == 0 && final(ball).pos.y == 0
            &&& final(ball).bounces.0 == 0
            &&& final(ball).vel.x == launch_x(events@.last(), launch_speed as int)
            &&& final(ball).vel.y == launch_speed || final(ball).vel.y == -launch_speed
            &&& final(ball).size == old(ball).size
        },
        old(ball).size.wf() && events@.len() > 0 ==> final(ball).wf(),
{
    let mut i: usize = 0;
    while i < events.len()
        invariant
            0 <= i <= events@.len(),
            length_in_limit(launch_speed as int),
            i == 0 ==> *ball == *old(ball),
            i > 0 ==> *ball == relaunched(*old(ball), events@[i - 1], ball.vel.y == launch_speed, launch_speed as int),
        decreases events@.len() - i,
    {
        let up = coin_flip();
        reset_ball(ball, events[i], up, launch_speed);
        i = i + 1;
    }
}

/// A paddle hit never leaves the ball inside the paddle: after resolution the
/// ball's edge lies exactly on the paddle's inner edge, its horizontal velocity
/// is reversed and points away from that paddle.
pub proof fn lemma_paddle_hit_leaves_ball_flush(b: Ball, left: Paddle, right: Paddle)
    requires
        in_limit(b.vel.x as int),
        b.size.wf(),
        left.wf(),
        right.wf(),
        b.bounces.0 < u32::MAX,
    ensures
        hits_left(b, left) ==> {
            let a = after_paddles(b, left, right);
            &&& a.pos.x - a.size.half_w == left.pos.x + left.size.half_w
            &&& a.vel.x == -b.vel.x
            &&& a.vel.x > 0
            &&& a.bounces.0 == b.bounces.0 + 1
        },
        !hits_left(b, left) && hits_right(b, right) ==> {
            let a = after_paddles(b, left, right);
            &&& a.pos.x + a.size.half_w == right.pos.x - right.size.half_w
            &&& a.vel.x == -b.vel.x
            &&& a.vel.x < 0
            &&& a.bounces.0 == b.bounces.0 + 1
        },
{
}

/// After a whole frame the ball lies within the field's height, top and bottom
/// edges included, provided it is no taller than the field.
pub proof fn lemma_frame_keeps_ball_between_walls(b: Ball, left: Paddle, right: Paddle, dt: int, field: Field)
    requires
        b.size.wf(),
        field.wf(),
        b.size.half_h <= field.half_h,
    ensures
        ({
            let a = frame(b, left, right, dt, field);
            &&& -field.half_h <= a.pos.y - a.size.half_h
            &&& a.pos.y + a.size.half_h <= field.half_h
        }),
{
}

/// A ball past the right goal line gives exactly one point, to the left
/// player, and is relaunched from the centre with a fresh rally toward the
/// right at the launch speed on each axis; past the left goal line the same
/// holds with sides swapped.
pub proof fn lemma_goal_scores_once_and_relaunches(b: Ball, field: Field, up: bool, speed: int)
    requires
        field.wf(),
        length_in_limit(speed),
    ensures
        b.pos.x > field.half_w ==> {
            let a = relaunched(b, ScoreEvent::LeftScored, up, speed);
            &&& score_event(b, field) == Some(ScoreEvent::LeftScored)
            &&& a.pos.x == 0 && a.pos.y == 0
            &&& a.bounces.0 == 0
            &&& a.vel.x == speed
            &&& (a.vel.y == speed || a.vel.y == -speed)
        },
        b.pos.x < -field.half_w ==> {
            let a = relaunched(b, ScoreEvent::RightScored, up, speed);
            &&& score_event(b, field) == Some(ScoreEvent::RightScored)
            &&& a.pos.x == 0 && a.pos.y == 0
            &&& a.bounces.0 == 0
            &&& a.vel.x == -speed
            &&& (a.vel.y == speed || a.vel.y == -speed)
        },
{
}

/// A frame that scores no point leaves the ball inside the field, its edges
/// within the top and bottom walls when it is no taller than the field, and
/// its values in range for the next frame.
pub proof fn lemma_frame_without_point_stays_in_field(b: Ball, left: Paddle, right: Paddle, dt: int, field: Field)
    requires
        frame_ready(b, left, right, field),
        score_event(frame(b, left, right, dt, field), field).is_none(),
    ensures
        ({
            let a = frame(b, left, right, dt, field);
            &&& -field.half_w <= a.pos.x <= field.half_w
            &&& b.size.half_h <= field.half_h ==> -field.half_h <= a.pos.y - a.size.half_h
                && a.pos.y + a.size.half_h <= field.half_h
            &&& a.wf()
        }),
{
}

} // verus!
