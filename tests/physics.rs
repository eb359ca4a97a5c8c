use pixel_pong::{
    check_for_scoring, frame_displacement, get_half_screen_size, get_screen_size,
    get_speed_multiplier, handle_paddle_collisions, handle_wall_collisions, is_colliding,
    update_ball, Ball, BounceCount, Extent, Field, Paddle, Point, ScoreEvent, Velocity,
    BALL_HALF_SIZE, PADDLE_HALF_HEIGHT, PADDLE_HALF_WIDTH,
};

const FRAME: u32 = 16_667;

fn field() -> Field {
    Field { half_w: 384_000, half_h: 240_000 }
}

fn ball_size() -> Extent {
    Extent { half_w: BALL_HALF_SIZE, half_h: BALL_HALF_SIZE }
}

fn paddle_at(x: i64, y: i64) -> Paddle {
    Paddle {
        pos: Point { x, y },
        size: Extent { half_w: PADDLE_HALF_WIDTH, half_h: PADDLE_HALF_HEIGHT },
    }
}

fn ball(x: i64, y: i64, vx: i64, vy: i64, bounces: u32) -> Ball {
    Ball {
        pos: Point { x, y },
        vel: Velocity { x: vx, y: vy },
        bounces: BounceCount(bounces),
        size: ball_size(),
    }
}

#[test]
fn speed_multiplier_tiers_and_boundaries() {
    for b in [0u32, 1, 3] {
        let m = get_speed_multiplier(b);
        assert_eq!((m.x, m.y), (10, 10));
    }
    for b in [4u32, 7, 11] {
        let m = get_speed_multiplier(b);
        assert_eq!((m.x, m.y), (16, 10));
    }
    for b in [12u32, 100, u32::MAX] {
        let m = get_speed_multiplier(b);
        assert_eq!((m.x, m.y), (21, 10));
    }
}

#[test]
fn touching_edges_collide() {
    let size = Extent { half_w: 4_500, half_h: 4_500 };
    let paddle = Extent { half_w: 4_500, half_h: 14_000 };
    // Right edge of the ball on the left edge of the paddle.
    assert!(is_colliding(Point { x: 0, y: 0 }, size, Point { x: 9_000, y: 0 }, paddle));
    // Top edge of the ball on the bottom edge of the paddle.
    assert!(is_colliding(Point { x: 0, y: 0 }, size, Point { x: 0, y: 18_500 }, paddle));
}

#[test]
fn separated_rectangles_do_not_collide() {
    let size = Extent { half_w: 4_500, half_h: 4_500 };
    let paddle = Extent { half_w: 4_500, half_h: 14_000 };
    assert!(!is_colliding(Point { x: 0, y: 0 }, size, Point { x: 9_001, y: 0 }, paddle));
    assert!(!is_colliding(Point { x: 0, y: 0 }, size, Point { x: 0, y: -18_501 }, paddle));
    // Overlap on x alone is not enough.
    assert!(!is_colliding(Point { x: 0, y: 0 }, size, Point { x: 1_000, y: 40_000 }, paddle));
}

#[test]
fn displacement_scales_with_multiplier_and_rounds_toward_zero() {
    assert_eq!(frame_displacement(125_000, FRAME, 10), 2_083);
    assert_eq!(frame_displacement(-125_000, FRAME, 10), -2_083);
    assert_eq!(frame_displacement(125_000, FRAME, 16), 3_333);
    assert_eq!(frame_displacement(125_000, FRAME, 21), 4_375);
    assert_eq!(frame_displacement(125_000, 0, 21), 0);
    assert_eq!(frame_displacement(125_000, 1_000_000, 10), 125_000);
}

#[test]
fn left_paddle_hit_puts_ball_flush() {
    let left = paddle_at(-350_000, 0);
    let right = paddle_at(350_000, 0);
    let mut b = ball(-343_000, 2_000, -125_000, 40_000, 2);
    handle_paddle_collisions(&mut b, left, right);
    assert_eq!(b.pos.x, -341_000);
    assert_eq!(b.pos.x - b.size.half_w, left.pos.x + left.size.half_w);
    assert_eq!(b.pos.y, 2_000);
    assert_eq!(b.vel.x, 125_000);
    assert_eq!(b.vel.y, 40_000);
    assert_eq!(b.bounces.0, 3);
}

#[test]
fn right_paddle_hit_puts_ball_flush() {
    let left = paddle_at(-350_000, 0);
    let right = paddle_at(350_000, 0);
    let mut b = ball(344_000, -10_000, 125_000, -40_000, 0);
    handle_paddle_collisions(&mut b, left, right);
    assert_eq!(b.pos.x, 341_000);
    assert_eq!(b.pos.x + b.size.half_w, right.pos.x - right.size.half_w);
    assert_eq!(b.vel.x, -125_000);
    assert_eq!(b.bounces.0, 1);
}

#[test]
fn paddle_ignores_ball_moving_away() {
    let left = paddle_at(-350_000, 0);
    let right = paddle_at(350_000, 0);
    let mut b = ball(-343_000, 0, 125_000, 0, 2);
    handle_paddle_collisions(&mut b, left, right);
    assert_eq!(b, ball(-343_000, 0, 125_000, 0, 2));
}

#[test]
fn left_paddle_is_checked_first() {
    // Both paddles overlap the ball; it moves left, so only the left one acts.
    let left = paddle_at(-5_000, 0);
    let right = paddle_at(5_000, 0);
    let mut b = ball(0, 0, -1_000, 0, 0);
    handle_paddle_collisions(&mut b, left, right);
    assert_eq!(b.pos.x, -5_000 + 4_500 + 4_500);
    assert_eq!(b.vel.x, 1_000);
    assert_eq!(b.bounces.0, 1);
}

#[test]
fn top_wall_turns_ball_down() {
    let mut b = ball(0, 238_000, 50_000, 30_000, 0);
    handle_wall_collisions(&mut b, field());
    assert_eq!(b.pos.y, 235_500);
    assert_eq!(b.vel.y, -30_000);
    assert_eq!(b.vel.x, 50_000);
}

#[test]
fn bottom_wall_turns_ball_up() {
    let mut b = ball(0, -250_000, 50_000, -30_000, 0);
    handle_wall_collisions(&mut b, field());
    assert_eq!(b.pos.y, -235_500);
    assert_eq!(b.vel.y, 30_000);
}

#[test]
fn wall_forces_direction_even_if_already_turned() {
    let mut b = ball(0, 239_000, 0, -30_000, 0);
    handle_wall_collisions(&mut b, field());
    assert_eq!(b.pos.y, 235_500);
    assert_eq!(b.vel.y, -30_000);
}

#[test]
fn ball_inside_walls_is_untouched() {
    let mut b = ball(0, 235_500, 0, 30_000, 0);
    handle_wall_collisions(&mut b, field());
    assert_eq!(b, ball(0, 235_500, 0, 30_000, 0));
}

#[test]
fn frame_keeps_ball_between_walls() {
    let left = paddle_at(-350_000, 0);
    let right = paddle_at(350_000, 0);
    let mut b = ball(0, 230_000, 0, 2_000_000, 12);
    let e = update_ball(&mut b, Some(left), Some(right), FRAME, field());
    assert_eq!(e, None);
    assert!(b.pos.y + b.size.half_h <= 240_000);
    assert!(b.pos.y - b.size.half_h >= -240_000);
    assert_eq!(b.vel.y, -2_000_000);
}

#[test]
fn crossing_right_goal_line_scores_left() {
    let b = ball(384_001, 0, -50_000, 30_000, 5);
    assert_eq!(check_for_scoring(&b, field()), Some(ScoreEvent::LeftScored));
}

#[test]
fn crossing_left_goal_line_scores_right() {
    let b = ball(-384_001, 0, -50_000, 30_000, 5);
    assert_eq!(check_for_scoring(&b, field()), Some(ScoreEvent::RightScored));
}

#[test]
fn no_point_on_or_inside_goal_lines() {
    for x in [-384_000i64, -1, 0, 1, 384_000] {
        let b = ball(x, 0, 125_000, 0, 0);
        assert_eq!(check_for_scoring(&b, field()), None);
    }
}

#[test]
fn update_waits_for_both_paddles() {
    let mut b = ball(1_000, 2_000, 125_000, 125_000, 3);
    assert_eq!(update_ball(&mut b, None, Some(paddle_at(350_000, 0)), FRAME, field()), None);
    assert_eq!(update_ball(&mut b, Some(paddle_at(-350_000, 0)), None, FRAME, field()), None);
    assert_eq!(update_ball(&mut b, None, None, FRAME, field()), None);
    assert_eq!(b, ball(1_000, 2_000, 125_000, 125_000, 3));
}

#[test]
fn update_moves_ball_by_velocity() {
    let mut b = ball(0, 0, 125_000, 125_000, 0);
    let e = update_ball(&mut b, Some(paddle_at(-350_000, 0)), Some(paddle_at(350_000, 0)), FRAME, field());
    assert_eq!(e, None);
    assert_eq!(b.pos, Point { x: 2_083, y: 2_083 });
    let mut fast = ball(0, 0, 125_000, 125_000, 12);
    update_ball(&mut fast, Some(paddle_at(-350_000, 0)), Some(paddle_at(350_000, 0)), FRAME, field());
    assert_eq!(fast.pos, Point { x: 4_375, y: 2_083 });
}

#[test]
fn update_reports_goal() {
    let mut b = ball(383_000, 0, 125_000, 0, 0);
    let e = update_ball(&mut b, Some(paddle_at(-350_000, 0)), Some(paddle_at(350_000, 100_000)), FRAME, field());
    assert_eq!(e, Some(ScoreEvent::LeftScored));
    assert_eq!(b.pos.x, 385_083);
}

fn run_until_bounce(mut b: Ball) -> (Ball, u32) {
    let left = paddle_at(-350_000, 0);
    let right = paddle_at(350_000, 0);
    let mut hits = 0;
    for _ in 0..400 {
        let before = b.bounces.0;
        let e = update_ball(&mut b, Some(left), Some(right), FRAME, field());
        assert_eq!(e, None);
        if b.bounces.0 != before {
            hits += 1;
            if hits == 1 {
                let flush = if b.vel.x > 0 { -341_000 } else { 341_000 };
                assert_eq!(b.pos.x, flush);
            }
        }
        if hits == 1 && b.pos.x.abs() < 300_000 {
            break;
        }
    }
    (b, hits)
}

#[test]
fn end_to_end_left_paddle_bounce() {
    let (b, hits) = run_until_bounce(ball(0, 0, -125_000, 0, 0));
    assert_eq!(hits, 1);
    assert_eq!(b.bounces.0, 1);
    assert_eq!(b.vel.x, 125_000);
}

#[test]
fn end_to_end_right_paddle_bounce() {
    let (b, hits) = run_until_bounce(ball(0, 0, 125_000, 0, 0));
    assert_eq!(hits, 1);
    assert_eq!(b.bounces.0, 1);
    assert_eq!(b.vel.x, -125_000);
}

#[test]
fn screen_sizes_in_subunits() {
    assert_eq!(get_screen_size(), (768_000, 480_000));
    assert_eq!(get_half_screen_size(), Field { half_w: 384_000, half_h: 240_000 });
}
