//! World construction: the fixed initial layout of paddle, ball, brick
//! grid and walls, the menu overlay, and the resets that state transitions
//! perform.

use vstd::prelude::*;

use crate::collision::served_ball;
use crate::components::{
    balls_wf, bricks_wf, paddle_wf, walls_wf, Ball, Brick, OverlayKind, Paddle, Wall,
    BRICK_COLS, BRICK_GRID_START_X, BRICK_GRID_START_Y, BRICK_ROWS, BRICK_STEP_X, BRICK_STEP_Y,
    WALL_SIDE_X, WALL_TOP_Y,
};
use crate::geometry::Vec2i;

verus! {

/// Centre of the brick in the given row (from the top) and column (from
/// the left) of the grid.
pub open spec fn brick_grid_pos(row: int, col: int) -> Vec2i {
    Vec2i {
        x: (BRICK_GRID_START_X + col * BRICK_STEP_X) as i64,
        y: (BRICK_GRID_START_Y - row * BRICK_STEP_Y) as i64,
    }
}

/// The three wall segments, in the order they are built: top, left,
/// right. The bottom is open — it is the death zone.
pub open spec fn initial_walls() -> Seq<Wall> {
    seq![
        Wall { pos: Vec2i { x: 0, y: WALL_TOP_Y } },
        Wall { pos: Vec2i { x: -WALL_SIDE_X as i64, y: 0 } },
        Wall { pos: Vec2i { x: WALL_SIDE_X, y: 0 } },
    ]
}

/// The fixed initial layout the session starts from and resets to: the
/// paddle centred, one freshly served ball, the full brick grid, and the
/// three walls.
pub open spec fn full_field(
    paddle: Option<Paddle>,
    balls: Seq<Ball>,
    bricks: Seq<Brick>,
    walls: Seq<Wall>,
) -> bool {
    &&& paddle == Some(Paddle { x: 0 })
    &&& balls =~= seq![served_ball()]
    &&& bricks.len() == BRICK_ROWS * BRICK_COLS
    &&& (forall|i: int|
        0 <= i < bricks.len() ==> #[trigger] bricks[i] == (Brick {
            pos: brick_grid_pos(i / BRICK_COLS as int, i % BRICK_COLS as int),
        }))
    &&& walls =~= initial_walls()
}

/// Builds the play field afresh: the paddle centred, one ball served just
/// above it, the full five-by-ten brick grid, and the three walls.
/// Whatever was in the passed collections is replaced.
pub fn spawn_game(
    paddle: &mut Option<Paddle>,
    balls: &mut Vec<Ball>,
    bricks: &mut Vec<Brick>,
    walls: &mut Vec<Wall>,
)
    ensures
        full_field(*final(paddle), final(balls)@, final(bricks)@, final(walls)@),
        paddle_wf((*final(paddle))->Some_0),
        balls_wf(final(balls)@),
        bricks_wf(final(bricks)@),
        walls_wf(final(walls)@),
{
    *paddle = Some(Paddle { x: 0 });

    balls.clear();
    balls.push(
        Ball {
            pos: Vec2i { x: 0, y: crate::components::BALL_START_Y },
            velocity: Vec2i {
                x: crate::components::BALL_START_VX,
                y: crate::components::BALL_SPEED,
            },
        },
    );

    bricks.clear();
    let total: usize = BRICK_ROWS * BRICK_COLS;
    let mut i: usize = 0;
    while i < total
        invariant
            i <= total,
            total == BRICK_ROWS * BRICK_COLS,
            bricks@.len() == i,
            forall|j: int|
                0 <= j < i ==> #[trigger] bricks@[j] == (Brick {
                    pos: brick_grid_pos(j / BRICK_COLS as int, j % BRICK_COLS as int),
                }),
            bricks_wf(bricks@),
        decreases total - i,
    {
        let row = i / BRICK_COLS;
        let col = i % BRICK_COLS;
        let x = BRICK_GRID_START_X + (col as i64) * BRICK_STEP_X;
        let y = BRICK_GRID_START_Y - (row as i64) * BRICK_STEP_Y;
        bricks.push(Brick { pos: Vec2i { x, y } });
        i = i + 1;
    }

    walls.clear();
    walls.push(Wall { pos: Vec2i { x: 0, y: WALL_TOP_Y } });
    walls.push(Wall { pos: Vec2i { x: -WALL_SIDE_X, y: 0 } });
    walls.push(Wall { pos: Vec2i { x: WALL_SIDE_X, y: 0 } });
}

/// Asks the presentation layer to show the menu overlay.
pub fn spawn_menu(overlays: &mut Vec<OverlayKind>)
    ensures
        final(overlays)@ == old(overlays)@.push(OverlayKind::MenuText),
{
    overlays.push(OverlayKind::MenuText);
}

/// Clears every live overlay, as state transitions do on exit.
pub fn despawn_overlay(overlays: &mut Vec<OverlayKind>)
    ensures
        final(overlays)@.len() == 0,
{
    overlays.clear();
}

/// Puts the paddle back at the centre and serves the ball afresh, as
/// entering play does. Each part is a safe no-op when its entity is
/// absent, and the ball reset asks for exactly one ball.
pub fn reset_ball_and_paddle(paddle: &mut Option<Paddle>, balls: &mut Vec<Ball>)
    ensures
        *old(paddle) is Some ==> *final(paddle) == Some(Paddle { x: 0 }),
        *old(paddle) is None ==> *final(paddle) == *old(paddle),
        old(balls)@.len() == 1 ==> final(balls)@ == old(balls)@.update(0, served_ball()),
        old(balls)@.len() != 1 ==> final(balls)@ == old(balls)@,
{
    if paddle.is_some() {
        *paddle = Some(Paddle { x: 0 });
    }
    if balls.len() == 1 {
        balls[0] = Ball {
            pos: Vec2i { x: 0, y: crate::components::BALL_START_Y },
            velocity: Vec2i {
                x: crate::components::BALL_START_VX,
                y: crate::components::BALL_SPEED,
            },
        };
    }
}

} // verus!
