use breakout_core::components::{
    Ball, Paddle, PADDLE_MAX_X, PADDLE_WIDTH, SPEED_SCALE, WINDOW_WIDTH,
};
use breakout_core::geometry::Vec2i;
use breakout_core::movement::{move_ball, move_paddle};

fn v(x: i64, y: i64) -> Vec2i {
    Vec2i { x, y }
}

#[test]
fn ball_moves_in_velocity_direction() {
    let mut balls = vec![Ball { pos: v(0, 0), velocity: v(100, 200) }];

    move_ball(&mut balls, SPEED_SCALE, 16);

    assert!(balls[0].pos.x > 0, "Ball should move right");
    assert!(balls[0].pos.y > 0, "Ball should move up");
}

#[test]
fn ball_displacement_is_velocity_times_time() {
    // 100 units/s for 16 ms is 1.6 units, truncated to 1; 200 units/s gives 3
    let mut balls = vec![Ball { pos: v(0, 0), velocity: v(100, 200) }];

    move_ball(&mut balls, SPEED_SCALE, 16);

    assert_eq!(balls[0].pos.x, 1);
    assert_eq!(balls[0].pos.y, 3);
}

#[test]
fn slowed_ball_covers_less_ground() {
    // At half speed, 200 units/s for one full second covers 100 units
    let mut balls = vec![Ball { pos: v(0, 0), velocity: v(200, 0) }];

    move_ball(&mut balls, SPEED_SCALE / 2, 1000);

    assert_eq!(balls[0].pos.x, 100);
}

#[test]
fn paddle_stays_without_input() {
    let mut paddle = Some(Paddle { x: 100 });

    move_paddle(&mut paddle, false, false, 16);

    assert_eq!(paddle.unwrap().x, 100, "Paddle should not move without input");
}

#[test]
fn paddle_clamps_to_right_bound() {
    let max_x = WINDOW_WIDTH / 2 - PADDLE_WIDTH / 2;

    // Paddle placed beyond the right bound
    let mut paddle = Some(Paddle { x: max_x + 100 });

    move_paddle(&mut paddle, false, false, 16);

    let x = paddle.unwrap().x;
    assert!(x <= max_x, "Paddle should be clamped to right bound, got x={x}");
}

#[test]
fn paddle_clamps_to_left_bound() {
    let max_x = WINDOW_WIDTH / 2 - PADDLE_WIDTH / 2;

    let mut paddle = Some(Paddle { x: -max_x - 100 });

    move_paddle(&mut paddle, false, false, 16);

    let x = paddle.unwrap().x;
    assert!(x >= -max_x, "Paddle should be clamped to left bound, got x={x}");
}

#[test]
fn held_input_cannot_push_paddle_past_bound() {
    // A full second of held input from the centre overshoots the window;
    // the paddle stops exactly at the bound
    let mut paddle = Some(Paddle { x: 0 });

    move_paddle(&mut paddle, false, true, 1000);

    assert_eq!(paddle.unwrap().x, PADDLE_MAX_X);

    let mut paddle = Some(Paddle { x: 0 });
    move_paddle(&mut paddle, true, false, 1000);
    assert_eq!(paddle.unwrap().x, -PADDLE_MAX_X);
}

#[test]
fn missing_paddle_is_a_no_op() {
    let mut paddle: Option<Paddle> = None;

    move_paddle(&mut paddle, true, false, 16);

    assert!(paddle.is_none());
}
