use breakout_core::components::{
    Ball, Brick, OverlayKind, Paddle, Wall, BRICK_COLS, BRICK_ROWS,
};
use breakout_core::geometry::Vec2i;
use breakout_core::setup::{despawn_overlay, reset_ball_and_paddle, spawn_game};

fn fresh_world() -> (Option<Paddle>, Vec<Ball>, Vec<Brick>, Vec<Wall>) {
    let mut paddle: Option<Paddle> = None;
    let mut balls: Vec<Ball> = Vec::new();
    let mut bricks: Vec<Brick> = Vec::new();
    let mut walls: Vec<Wall> = Vec::new();
    spawn_game(&mut paddle, &mut balls, &mut bricks, &mut walls);
    (paddle, balls, bricks, walls)
}

#[test]
fn spawn_game_creates_one_paddle() {
    let (paddle, _, _, _) = fresh_world();
    assert!(paddle.is_some(), "Should spawn exactly one paddle");
}

#[test]
fn spawn_game_creates_one_ball() {
    let (_, balls, _, _) = fresh_world();
    assert_eq!(balls.len(), 1, "Should spawn exactly one ball");
}

#[test]
fn spawn_game_creates_fifty_bricks() {
    let (_, _, bricks, _) = fresh_world();
    assert_eq!(bricks.len(), BRICK_ROWS * BRICK_COLS, "Should spawn BRICK_ROWS * BRICK_COLS bricks");
}

#[test]
fn spawn_game_creates_three_walls() {
    let (_, _, _, walls) = fresh_world();
    assert_eq!(walls.len(), 3, "Should spawn 3 walls (top, left, right)");
}

#[test]
fn spawn_game_entities_have_colliders() {
    // Every paddle, brick and wall the builder makes takes part in
    // collision tests; the stages collide against exactly these records
    let (paddle, _, bricks, walls) = fresh_world();
    assert!(paddle.is_some(), "Paddle should have Collider");
    assert_eq!(bricks.len(), BRICK_ROWS * BRICK_COLS, "All bricks should have Collider");
    assert_eq!(walls.len(), 3, "All walls should have Collider");
}

#[test]
fn despawn_overlay_removes_overlay_entities() {
    let mut overlays = vec![OverlayKind::MenuText, OverlayKind::GameOverText];
    assert_eq!(overlays.len(), 2);

    despawn_overlay(&mut overlays);

    assert_eq!(overlays.len(), 0, "All OverlayUi entities should be despawned");
}

#[test]
fn reset_ball_and_paddle_resets_positions() {
    // Paddle and ball displaced, ball falling
    let mut paddle = Some(Paddle { x: 200 });
    let mut balls = vec![Ball {
        pos: Vec2i { x: 100, y: 50 },
        velocity: Vec2i { x: -100, y: -200 },
    }];

    reset_ball_and_paddle(&mut paddle, &mut balls);

    assert_eq!(paddle.unwrap().x, 0, "Paddle x should reset to 0");
    assert_eq!(balls[0].pos.x, 0, "Ball x should reset to 0");
    assert!(balls[0].velocity.y > 0, "Ball should be moving upward after reset");
}

#[test]
fn brick_grid_rows_step_downward() {
    let (_, _, bricks, _) = fresh_world();
    // First row sits above the second, columns step rightward
    assert!(bricks[0].pos.y > bricks[BRICK_COLS].pos.y);
    assert!(bricks[0].pos.x < bricks[1].pos.x);
    assert_eq!(bricks[1].pos.x - bricks[0].pos.x, 84);
    assert_eq!(bricks[0].pos.y - bricks[BRICK_COLS].pos.y, 34);
}
