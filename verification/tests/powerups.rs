use breakout_core::components::{
    ActivePowerUps, Ball, BallSpeedModifier, Paddle, PaddleState, PowerUp, PowerUpTimer,
    PowerUpType, PADDLE_WIDTH, PADDLE_Y, POWERUP_DEATH_Y, POWERUP_DURATION_MS, SLOW_BALL_MULTIPLIER,
    SPEED_SCALE, WIDER_PADDLE_WIDTH,
};
use breakout_core::geometry::Vec2i;
use breakout_core::powerups::{
    classify_powerup_roll, despawn_powerups_out_of_bounds, move_powerups,
    powerup_paddle_collision, random_powerup_type, reset_or_add_timer, spawn_multi_balls,
    spawn_powerup, tick_powerup_timers,
};

fn v(x: i64, y: i64) -> Vec2i {
    Vec2i { x, y }
}

#[test]
fn powerups_fall_at_constant_speed() {
    // 150 units/s for 16 ms is 2.4 units, truncated to 2
    let mut powerups = vec![PowerUp { pos: v(10, 0), power_type: PowerUpType::SlowBall }];

    move_powerups(&mut powerups, 16);

    assert_eq!(powerups[0].pos.x, 10);
    assert_eq!(powerups[0].pos.y, -2);
}

#[test]
fn powerups_below_death_line_despawn() {
    let mut powerups = vec![
        PowerUp { pos: v(0, POWERUP_DEATH_Y - 1), power_type: PowerUpType::MultiBall },
        PowerUp { pos: v(5, 0), power_type: PowerUpType::SlowBall },
    ];

    despawn_powerups_out_of_bounds(&mut powerups);

    assert_eq!(powerups.len(), 1);
    assert_eq!(powerups[0].pos.x, 5);
}

#[test]
fn spawn_powerup_adds_record() {
    let mut powerups: Vec<PowerUp> = Vec::new();

    spawn_powerup(&mut powerups, v(1, 2), PowerUpType::WiderPaddle);

    assert_eq!(powerups.len(), 1);
    assert_eq!(powerups[0].power_type, PowerUpType::WiderPaddle);
    assert_eq!(powerups[0].pos, v(1, 2));
}

#[test]
fn roll_classification_splits_in_thirds() {
    assert_eq!(classify_powerup_roll(0), PowerUpType::MultiBall);
    assert_eq!(classify_powerup_roll(329), PowerUpType::MultiBall);
    assert_eq!(classify_powerup_roll(330), PowerUpType::WiderPaddle);
    assert_eq!(classify_powerup_roll(659), PowerUpType::WiderPaddle);
    assert_eq!(classify_powerup_roll(660), PowerUpType::SlowBall);
    assert_eq!(classify_powerup_roll(999), PowerUpType::SlowBall);
    // The roll wraps around a thousand
    assert_eq!(classify_powerup_roll(2001), PowerUpType::MultiBall);
}

#[test]
fn random_powerup_type_yields_a_variant() {
    // The draw is random; every outcome must be one of the three effects
    let t = random_powerup_type();
    assert!(matches!(
        t,
        PowerUpType::MultiBall | PowerUpType::WiderPaddle | PowerUpType::SlowBall
    ));
}

#[test]
fn timer_expiry_reverts_paddle_width() {
    let mut active = ActivePowerUps {
        timers: vec![PowerUpTimer { power_type: PowerUpType::WiderPaddle, remaining_ms: 100 }],
    };
    let mut paddle_state = PaddleState { current_width: WIDER_PADDLE_WIDTH };
    let mut modifier = BallSpeedModifier { multiplier: SPEED_SCALE };

    tick_powerup_timers(150, &mut active, &mut paddle_state, &mut modifier);

    assert_eq!(paddle_state.current_width, PADDLE_WIDTH);
    assert_eq!(active.timers.len(), 0, "Expired entries leave the list the same frame");
    assert_eq!(modifier.multiplier, SPEED_SCALE);
}

#[test]
fn slow_ball_expiry_zeroes_multiplier() {
    let mut active = ActivePowerUps {
        timers: vec![PowerUpTimer { power_type: PowerUpType::SlowBall, remaining_ms: 10 }],
    };
    let mut paddle_state = PaddleState { current_width: PADDLE_WIDTH };
    let mut modifier = BallSpeedModifier { multiplier: SLOW_BALL_MULTIPLIER };

    tick_powerup_timers(16, &mut active, &mut paddle_state, &mut modifier);

    assert_eq!(modifier.multiplier, 0, "Expiry leaves the multiplier at zero");
    assert_eq!(active.timers.len(), 0);
}

#[test]
fn running_timer_just_counts_down() {
    let mut active = ActivePowerUps {
        timers: vec![PowerUpTimer { power_type: PowerUpType::WiderPaddle, remaining_ms: 1000 }],
    };
    let mut paddle_state = PaddleState { current_width: WIDER_PADDLE_WIDTH };
    let mut modifier = BallSpeedModifier { multiplier: SPEED_SCALE };

    tick_powerup_timers(16, &mut active, &mut paddle_state, &mut modifier);

    assert_eq!(active.timers.len(), 1);
    assert_eq!(active.timers[0].remaining_ms, 984);
    assert_eq!(paddle_state.current_width, WIDER_PADDLE_WIDTH, "No expiry, no revert");
}

#[test]
fn recollecting_resets_countdown_without_stacking() {
    let mut active = ActivePowerUps {
        timers: vec![PowerUpTimer { power_type: PowerUpType::WiderPaddle, remaining_ms: 123 }],
    };

    reset_or_add_timer(&mut active, PowerUpType::WiderPaddle);

    assert_eq!(active.timers.len(), 1, "The same type never appears twice");
    assert_eq!(active.timers[0].remaining_ms, POWERUP_DURATION_MS);

    reset_or_add_timer(&mut active, PowerUpType::SlowBall);
    assert_eq!(active.timers.len(), 2, "A new type gets its own entry");
}

#[test]
fn wider_paddle_pickup_widens_and_arms_timer() {
    let paddle = Some(Paddle { x: 0 });
    let mut powerups = vec![PowerUp { pos: v(0, PADDLE_Y), power_type: PowerUpType::WiderPaddle }];
    let mut paddle_state = PaddleState { current_width: PADDLE_WIDTH };
    let mut modifier = BallSpeedModifier { multiplier: SPEED_SCALE };
    let mut active = ActivePowerUps { timers: Vec::new() };
    let mut balls: Vec<Ball> = Vec::new();

    powerup_paddle_collision(
        &mut powerups,
        &paddle,
        &mut paddle_state,
        &mut modifier,
        &mut active,
        &mut balls,
    );

    assert_eq!(powerups.len(), 0, "Collected power-up despawns");
    assert_eq!(paddle_state.current_width, WIDER_PADDLE_WIDTH);
    assert_eq!(active.timers.len(), 1);
    assert_eq!(active.timers[0].power_type, PowerUpType::WiderPaddle);
}

#[test]
fn slow_ball_pickup_halves_multiplier() {
    let paddle = Some(Paddle { x: 0 });
    let mut powerups = vec![PowerUp { pos: v(10, PADDLE_Y), power_type: PowerUpType::SlowBall }];
    let mut paddle_state = PaddleState { current_width: PADDLE_WIDTH };
    let mut modifier = BallSpeedModifier { multiplier: SPEED_SCALE };
    let mut active = ActivePowerUps { timers: Vec::new() };
    let mut balls: Vec<Ball> = Vec::new();

    powerup_paddle_collision(
        &mut powerups,
        &paddle,
        &mut paddle_state,
        &mut modifier,
        &mut active,
        &mut balls,
    );

    assert_eq!(modifier.multiplier, SLOW_BALL_MULTIPLIER);
    assert_eq!(powerups.len(), 0);
}

#[test]
fn missed_powerup_keeps_falling() {
    let paddle = Some(Paddle { x: 0 });
    let mut powerups = vec![PowerUp { pos: v(400, 200), power_type: PowerUpType::SlowBall }];
    let mut paddle_state = PaddleState { current_width: PADDLE_WIDTH };
    let mut modifier = BallSpeedModifier { multiplier: SPEED_SCALE };
    let mut active = ActivePowerUps { timers: Vec::new() };
    let mut balls: Vec<Ball> = Vec::new();

    powerup_paddle_collision(
        &mut powerups,
        &paddle,
        &mut paddle_state,
        &mut modifier,
        &mut active,
        &mut balls,
    );

    assert_eq!(powerups.len(), 1, "A power-up away from the paddle stays");
    assert_eq!(modifier.multiplier, SPEED_SCALE);
}

#[test]
fn multi_ball_fans_two_copies_off_nearest_ball() {
    // One ball rising straight up; the pickup spawns two copies whose
    // velocities are the original rotated by the fan angle either way
    let mut balls = vec![Ball { pos: v(0, -100), velocity: v(0, 350) }];

    spawn_multi_balls(&mut balls, v(0, -260));

    assert_eq!(balls.len(), 3);
    assert_eq!(balls[0].velocity, v(0, 350), "The source ball is untouched");
    assert_eq!(balls[1].pos, v(0, -100));
    assert_eq!(balls[2].pos, v(0, -100));
    assert_eq!(balls[1].velocity, v(175, 303));
    assert_eq!(balls[2].velocity, v(-175, 303));
}

#[test]
fn multi_ball_pickup_without_balls_is_no_op() {
    let mut balls: Vec<Ball> = Vec::new();

    spawn_multi_balls(&mut balls, v(0, 0));

    assert_eq!(balls.len(), 0);
}

#[test]
fn multi_ball_picks_first_nearest_on_tie() {
    // Two balls equally far from the pickup: the first one is the source
    let mut balls = vec![
        Ball { pos: v(-50, 0), velocity: v(0, 350) },
        Ball { pos: v(50, 0), velocity: v(100, 350) },
    ];

    spawn_multi_balls(&mut balls, v(0, 0));

    assert_eq!(balls.len(), 4);
    assert_eq!(balls[2].pos, v(-50, 0), "Ties keep the first ball found");
    assert_eq!(balls[3].pos, v(-50, 0));
}
