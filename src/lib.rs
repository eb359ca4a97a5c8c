//! A two-player Pong game core: ball motion, paddle and wall collisions,
//! scoring and the scoreboard, on integer world coordinates.
//!
//! Lengths are counted in sub-units (`SUBUNITS` to one world unit), speeds in
//! sub-units per second, frame times in microseconds, and speed multipliers in
//! tenths.
pub mod background;
pub mod ball;
pub mod field;
pub mod geometry;
pub mod paddle;
pub mod scoreboard;
pub mod speed;

pub use background::center_line_dots;
pub use ball::{
    check_for_scoring, handle_paddle_collisions, ready_for_frame, handle_wall_collisions, reset_ball,
    reset_ball_system, spawn_ball, update_ball, Ball, BounceCount, Velocity, BALL_HALF_SIZE,
    INITIAL_BALL_SPEED,
};
pub use field::{get_half_screen_size, get_screen_size, Field, GRID_HEIGHT, GRID_WIDTH};
pub use geometry::{is_colliding, Extent, Point, LIMIT, SUBUNITS};
pub use paddle::{
    move_paddle, spawn_left_paddle, spawn_right_paddle, Paddle, PADDLE_HALF_HEIGHT,
    PADDLE_HALF_WIDTH, PADDLE_OFFSET, PADDLE_SPEED,
};
pub use scoreboard::{update_scoreboard, ScoreBoard, ScoreEvent};
pub use speed::{frame_displacement, get_speed_multiplier, SpeedMultiplier, MICROS_PER_SECOND};
