use breakout_core::collision::{
    ball_collision_bricks, ball_collision_walls_and_paddle, ball_death_zone, wall_size_of,
};
use breakout_core::components::{
    Ball, Brick, Lives, Paddle, Scoreboard, Wall, BALL_SIZE, BALL_SPEED, BRICK_HEIGHT,
    PADDLE_HEIGHT, PADDLE_Y, POINTS_PER_BRICK, WALL_THICKNESS, WINDOW_HEIGHT, WINDOW_WIDTH,
};
use breakout_core::geometry::Vec2i;

fn v(x: i64, y: i64) -> Vec2i {
    Vec2i { x, y }
}

#[test]
fn wall_size_heuristic_top_wall() {
    // Top wall at (0, 305): farther from centre vertically than horizontally,
    // so it should get top-wall dimensions (wide and thin)
    let top_wall = Wall { pos: v(0, WINDOW_HEIGHT / 2 + WALL_THICKNESS / 2) };
    let size = wall_size_of(&top_wall);
    assert!(size.x > size.y, "Top wall should be wider than tall, got {size:?}");
}

#[test]
fn wall_size_heuristic_side_walls() {
    // Left wall at (-455, 0): farther from centre horizontally,
    // so it should get side-wall dimensions (thin and tall)
    let left_wall = Wall { pos: v(-WINDOW_WIDTH / 2 - WALL_THICKNESS / 2, 0) };
    let size = wall_size_of(&left_wall);
    assert!(size.y > size.x, "Side wall should be taller than wide, got {size:?}");
}

#[test]
fn ball_reflects_off_top_wall() {
    let top_wall_y = WINDOW_HEIGHT / 2 + WALL_THICKNESS / 2;

    // Ball just below the top wall, moving upward
    let mut balls = vec![Ball {
        pos: v(0, top_wall_y - WALL_THICKNESS / 2 - BALL_SIZE / 2 + 2),
        velocity: v(0, BALL_SPEED),
    }];
    let walls = vec![Wall { pos: v(0, top_wall_y) }];

    ball_collision_walls_and_paddle(&mut balls, &None, &walls);

    let ball_vel = balls[0].velocity;
    assert!(
        ball_vel.y < 0,
        "Ball should bounce down after hitting top wall, got y={}",
        ball_vel.y
    );
}

#[test]
fn ball_reflects_off_side_wall() {
    let right_wall_x = WINDOW_WIDTH / 2 + WALL_THICKNESS / 2;

    // Ball near the right wall, moving right
    let mut balls = vec![Ball {
        pos: v(right_wall_x - WALL_THICKNESS / 2 - BALL_SIZE / 2 + 2, 0),
        velocity: v(BALL_SPEED, 0),
    }];
    let walls = vec![Wall { pos: v(right_wall_x, 0) }];

    ball_collision_walls_and_paddle(&mut balls, &None, &walls);

    let ball_vel = balls[0].velocity;
    assert!(
        ball_vel.x < 0,
        "Ball should bounce left after hitting right wall, got x={}",
        ball_vel.x
    );
}

#[test]
fn ball_destroys_brick_and_scores() {
    let brick_y = 100;
    let mut balls = vec![Ball {
        pos: v(0, brick_y - BRICK_HEIGHT / 2 - BALL_SIZE / 2 + 2),
        velocity: v(0, BALL_SPEED),
    }];
    let mut bricks = vec![Brick { pos: v(0, brick_y) }];
    let mut scoreboard = Scoreboard { score: 0 };

    ball_collision_bricks(&mut balls, &mut bricks, &mut scoreboard);

    assert_eq!(scoreboard.score, POINTS_PER_BRICK);
    assert_eq!(bricks.len(), 0, "Brick should be despawned after hit");
}

#[test]
fn ball_reflects_on_brick_hit() {
    // Ball moving upward, overlapping a brick from below
    let brick_y = 100;
    let mut balls = vec![Ball {
        pos: v(0, brick_y - BRICK_HEIGHT / 2 - BALL_SIZE / 2 + 2),
        velocity: v(100, BALL_SPEED),
    }];
    let mut bricks = vec![Brick { pos: v(0, brick_y) }];
    let mut scoreboard = Scoreboard { score: 0 };

    ball_collision_bricks(&mut balls, &mut bricks, &mut scoreboard);

    let ball_vel = balls[0].velocity;
    assert!(ball_vel.y < 0, "Ball y-velocity should flip after hitting brick from below");
}

#[test]
fn ball_below_death_zone_loses_life() {
    let death_y = -WINDOW_HEIGHT / 2 - BALL_SIZE;
    let mut balls = vec![Ball { pos: v(50, death_y - 10), velocity: v(100, -BALL_SPEED) }];
    let mut lives = Lives { count: 3 };

    ball_death_zone(&mut balls, &mut lives);

    assert_eq!(lives.count, 2, "Should lose one life (3 -> 2)");
    assert_eq!(balls[0].pos.x, 0, "Ball x should reset to 0");
}

#[test]
fn ball_death_zone_saturates_at_zero() {
    let death_y = -WINDOW_HEIGHT / 2 - BALL_SIZE;
    let mut balls = vec![Ball { pos: v(0, death_y - 10), velocity: v(0, -BALL_SPEED) }];
    let mut lives = Lives { count: 0 };

    ball_death_zone(&mut balls, &mut lives);

    assert_eq!(lives.count, 0, "Lives should stay at 0 via saturating decrement");
}

#[test]
fn ball_above_death_zone_keeps_lives() {
    let mut balls = vec![Ball { pos: v(0, 0), velocity: v(100, BALL_SPEED) }];
    let mut lives = Lives { count: 3 };

    ball_death_zone(&mut balls, &mut lives);

    assert_eq!(lives.count, 3, "Lives should remain unchanged");
}

#[test]
fn paddle_bounce_always_sends_ball_up() {
    // Ball falling onto the right half of the paddle
    let paddle = Some(Paddle { x: 0 });
    let mut balls = vec![Ball {
        pos: v(30, PADDLE_Y + PADDLE_HEIGHT / 2 + BALL_SIZE / 2 - 2),
        velocity: v(50, -BALL_SPEED),
    }];
    let walls: Vec<Wall> = Vec::new();

    ball_collision_walls_and_paddle(&mut balls, &paddle, &walls);

    assert!(balls[0].velocity.y > 0, "Paddle bounce should send the ball upward");
    assert!(balls[0].velocity.x > 0, "An off-centre hit should deflect towards that side");
    assert!(
        balls[0].pos.y > PADDLE_Y + PADDLE_HEIGHT / 2,
        "Ball should be pushed clear of the paddle"
    );
}
