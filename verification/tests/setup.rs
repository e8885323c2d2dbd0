use breakout_core::ball::{ball_size, ball_starting_position, initial_ball_velocity, BALL_SPEED};
use breakout_core::brick::{
    brick_grid, SetupError, BRICK_SIZE_X, BRICK_SIZE_Y, GAP_BETWEEN_BRICKS,
    GAP_BETWEEN_BRICKS_AND_CEILING, GAP_BETWEEN_BRICKS_AND_SIDES, GAP_BETWEEN_PADDLE_AND_BRICKS,
};
use breakout_core::geometry::Vec2i;
use breakout_core::paddle::{
    move_paddle, GAP_BETWEEN_PADDLE_AND_FLOOR, PADDLE_LEFT_BOUND, PADDLE_RIGHT_BOUND,
};
use breakout_core::physics::{TimeStep, Velocity};
use breakout_core::ui::{update_scoreboard, ScoreBoard};
use breakout_core::wall::{
    WallBundle, WallLocation, BOTTOM_WALL, LEFT_WALL, RIGHT_WALL, TOP_WALL,
};

#[test]
fn wall_coordinates_follow_the_arena_dimensions() {
    // Arena width 1200 with wall thickness 4 puts the vertical walls at
    // +/-598; height 800 puts the horizontal walls at +/-398.
    assert_eq!(LEFT_WALL, -598);
    assert_eq!(RIGHT_WALL, 598);
    assert_eq!(TOP_WALL, 398);
    assert_eq!(BOTTOM_WALL, -398);
}

#[test]
fn wall_bundles_carry_position_and_size() {
    let left = WallBundle::new(WallLocation::Left);
    assert_eq!(left.position, Vec2i { x: -598, y: 0 });
    assert_eq!(left.size, Vec2i { x: 4, y: 800 });
    let top = WallBundle::new(WallLocation::Top);
    assert_eq!(top.position, Vec2i { x: 0, y: 398 });
    assert_eq!(top.size, Vec2i { x: 1200, y: 4 });
    let bottom = WallBundle::new(WallLocation::Bottom);
    assert_eq!(bottom.position, Vec2i { x: 0, y: -398 });
    let right = WallBundle::new(WallLocation::Right);
    assert_eq!(right.position, Vec2i { x: 598, y: 0 });
    assert_eq!(right.size, Vec2i { x: 4, y: 800 });
}

#[test]
fn paddle_range_and_move_step() {
    // Half-width 60 and padding 0 keep the paddle's center in [-538, 538];
    // one move at direction -1, speed 900, dt 1/60 shifts it by -15.
    assert_eq!(PADDLE_LEFT_BOUND, -538);
    assert_eq!(PADDLE_RIGHT_BOUND, 538);
    let dt = TimeStep::new(1, 60);
    assert_eq!(move_paddle(0, -1, dt), -15);
    assert_eq!(move_paddle(0, 1, dt), 15);
    assert_eq!(move_paddle(100, 0, dt), 100);
}

#[test]
fn paddle_clamps_at_the_walls() {
    let dt = TimeStep::new(1, 60);
    assert_eq!(move_paddle(-530, -1, dt), -538);
    assert_eq!(move_paddle(530, 1, dt), 538);
    // An out-of-range position is pulled back into range.
    assert_eq!(move_paddle(10_000, 0, dt), 538);
}

#[test]
fn standard_brick_grid_dimensions() {
    let bottom_edge = BOTTOM_WALL + GAP_BETWEEN_PADDLE_AND_FLOOR + GAP_BETWEEN_PADDLE_AND_BRICKS;
    let g = brick_grid(
        LEFT_WALL,
        RIGHT_WALL,
        TOP_WALL,
        bottom_edge,
        BRICK_SIZE_X,
        BRICK_SIZE_Y,
        GAP_BETWEEN_BRICKS,
        GAP_BETWEEN_BRICKS_AND_SIDES,
        GAP_BETWEEN_BRICKS_AND_CEILING,
    )
    .unwrap();
    assert_eq!(g.n_columns, 6);
    assert_eq!(g.n_rows, 5);
    // Centers are carried doubled; the first column's center is -412.5.
    assert_eq!(g.first_center_x2, -825);
    assert_eq!(g.first_center_y2, 174);
    assert_eq!(g.step_x2, 330);
    assert_eq!(g.step_y2, 110);
    assert_eq!(g.center2(0, 0), (-825, 174));
    assert_eq!(g.center2(4, 5), (825, 614));
}

#[test]
fn degenerate_brick_size_is_a_setup_error() {
    assert_eq!(
        brick_grid(-598, 598, 398, 62, 0, 50, 5, 50, 50),
        Err(SetupError::BrickSize)
    );
    assert_eq!(
        brick_grid(-598, 598, 398, 62, 160, -1, 5, 50, 50),
        Err(SetupError::BrickSize)
    );
}

#[test]
fn no_horizontal_room_is_a_setup_error() {
    assert_eq!(
        brick_grid(-598, 598, 398, 62, 160, 50, 5, 600_000, 50),
        Err(SetupError::ArenaWidth)
    );
}

#[test]
fn no_vertical_room_is_a_setup_error() {
    assert_eq!(
        brick_grid(-598, 598, 398, 397, 160, 50, 5, 50, 50),
        Err(SetupError::ArenaHeight)
    );
}

#[test]
fn zero_bricks_fitting_is_a_setup_error() {
    // 20 units of width fit no 160-wide brick.
    assert_eq!(
        brick_grid(-10, 10, 300, 0, 160, 50, 5, 0, 0),
        Err(SetupError::NoBricksFit)
    );
}

#[test]
fn ball_constants() {
    assert_eq!(ball_starting_position(), Vec2i { x: 0, y: -50 });
    assert_eq!(ball_size(), Vec2i { x: 30, y: 30 });
    assert_eq!(BALL_SPEED, 500);
    // The initial direction (1, -1), normalized and scaled by the speed,
    // rounds to (354, -354).
    assert_eq!(initial_ball_velocity(), Velocity { x: 354, y: -354 });
}

#[test]
fn scoreboard_counts_up_and_reads_back() {
    let mut sb = ScoreBoard::new();
    assert_eq!(sb.current(), 0);
    sb.increment();
    sb.increment();
    assert_eq!(sb.current(), 2);
}

#[test]
fn scoreboard_text_is_the_score_in_decimal() {
    assert_eq!(update_scoreboard(&ScoreBoard { score: 0 }), "0");
    assert_eq!(update_scoreboard(&ScoreBoard { score: 7 }), "7");
    assert_eq!(update_scoreboard(&ScoreBoard { score: 12345 }), "12345");
    assert_eq!(update_scoreboard(&ScoreBoard { score: 1000 }), "1000");
    assert_eq!(
        update_scoreboard(&ScoreBoard { score: usize::MAX }),
        usize::MAX.to_string()
    );
}
