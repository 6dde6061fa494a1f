//! Entity records, global counters and the shared constants of the
//! simulation.
//!
//! All lengths are in whole units, durations in milliseconds, and
//! fractional factors (speed multipliers, trigonometric coefficients) in
//! thousandths.

use vstd::prelude::*;

use crate::geometry::{in_coord_range, Vec2i, COORD_LIMIT};

verus! {

// --- Window ---
pub const WINDOW_WIDTH: i64 = 900;

pub const WINDOW_HEIGHT: i64 = 600;

// --- Paddle ---
pub const PADDLE_WIDTH: i64 = 120;

pub const PADDLE_HEIGHT: i64 = 20;

pub const PADDLE_Y: i64 = -260;

/// Paddle speed in units per second.
pub const PADDLE_SPEED: i64 = 500;

/// The paddle centre is clamped to `[-PADDLE_MAX_X, PADDLE_MAX_X]`.
pub const PADDLE_MAX_X: i64 = 390;

// --- Ball ---
pub const BALL_SIZE: i64 = 16;

/// Ball speed in units per second.
pub const BALL_SPEED: i64 = 350;

/// Where the ball sits when (re)spawned: just above the paddle.
pub const BALL_START_Y: i64 = -241;

/// Horizontal speed of a freshly served ball: seven tenths of `BALL_SPEED`.
pub const BALL_START_VX: i64 = 245;

/// Below this y coordinate a ball is lost: one ball size under the bottom
/// edge of the window.
pub const DEATH_ZONE_Y: i64 = -316;

/// How far past the struck face the ball is pushed on resolution, so that
/// the same collision does not re-trigger next frame.
pub const PUSH_OUT_MARGIN: i64 = 1;

/// `sin` of the largest paddle deflection angle, in thousandths: the
/// deflection is linear in the hit offset across the paddle.
pub const SIN_45_MILLI: i64 = 707;

/// How much of the incoming horizontal velocity carries over into a paddle
/// bounce, in thousandths.
pub const BOUNCE_CARRY_MILLI: i64 = 300;

pub const PADDLE_HALF_WIDTH: i64 = 60;

// --- Bricks ---
pub const BRICK_WIDTH: i64 = 80;

pub const BRICK_HEIGHT: i64 = 30;

pub const BRICK_GAP: i64 = 4;

pub const BRICK_COLS: usize = 10;

pub const BRICK_ROWS: usize = 5;

pub const POINTS_PER_BRICK: u32 = 10;

/// Centre x of the leftmost brick column: the five-row, ten-column grid is
/// centred in the window.
pub const BRICK_GRID_START_X: i64 = -378;

/// Centre y of the highest brick row.
pub const BRICK_GRID_START_Y: i64 = 220;

/// Horizontal centre-to-centre distance of neighbouring bricks: a brick
/// width plus the gap.
pub const BRICK_STEP_X: i64 = 84;

/// Vertical centre-to-centre distance of neighbouring brick rows.
pub const BRICK_STEP_Y: i64 = 34;

// --- Walls ---
pub const WALL_THICKNESS: i64 = 10;

/// Height of the left and right walls: the window height plus a wall
/// thickness beyond each corner.
pub const WALL_SIDE_HEIGHT: i64 = 620;

/// Centre y of the top wall: flush against the window's upper edge.
pub const WALL_TOP_Y: i64 = 305;

/// Centre x of the right wall; the left wall sits at its negation.
pub const WALL_SIDE_X: i64 = 455;

/// Width of the top wall: the window width plus a wall thickness beyond
/// each corner.
pub const WALL_TOP_WIDTH: i64 = 920;

// --- Power-ups ---
pub const POWERUP_SIZE: i64 = 24;

/// Fall speed of a dropping power-up, in units per second.
pub const POWERUP_FALL_SPEED: i64 = 150;

/// How long a collected timed power-up stays active, in milliseconds.
pub const POWERUP_DURATION_MS: u64 = 10_000;

/// Below this y coordinate a falling power-up is lost, with no effect on
/// score or lives.
pub const POWERUP_DEATH_Y: i64 = -324;

/// Cosine of the multi-ball fan angle, in thousandths.
pub const COS_30_MILLI: i64 = 866;

/// Sine of the multi-ball fan angle, in thousandths.
pub const SIN_30_MILLI: i64 = 500;

/// Paddle width while the widening effect is active.
pub const WIDER_PADDLE_WIDTH: i64 = 180;

/// Denominator of the ball-speed multiplier: a multiplier of
/// `SPEED_SCALE` leaves the speed unchanged.
pub const SPEED_SCALE: u32 = 1000;

/// Ball-speed multiplier (in thousandths) while the slowing effect is
/// active.
pub const SLOW_BALL_MULTIPLIER: u32 = 500;

// --- Pause menu ---
pub const PAUSE_MENU_ITEMS: u32 = 2;

// --- Limits that keep the arithmetic inside i64 ---
/// Velocity components stay within this bound (units per second).
pub const VEL_LIMIT: i64 = 1_000_000;

/// A single frame never advances time by more than this many milliseconds.
pub const DT_LIMIT: u64 = 10_000;

// --- Game state machine ---
/// Exactly one of these is active at a time; it decides which stages run.
#[derive(Clone, Copy, Debug, PartialEq, Eq, Structural)]
pub enum GameState {
    Menu,
    Playing,
    Paused,
    GameOver,
    Victory,
}

// --- Entities ---
/// A ball: centre position and velocity in units per second.
#[derive(Clone, Copy, Debug, PartialEq, Eq, Structural)]
pub struct Ball {
    pub pos: Vec2i,
    pub velocity: Vec2i,
}

/// The paddle: its centre's x position. Its y position is the fixed
/// `PADDLE_Y` and its current width lives in `PaddleState`.
#[derive(Clone, Copy, Debug, PartialEq, Eq, Structural)]
pub struct Paddle {
    pub x: i64,
}

/// A brick: centre position. A brick is destroyed by removing its record.
#[derive(Clone, Copy, Debug, PartialEq, Eq, Structural)]
pub struct Brick {
    pub pos: Vec2i,
}

/// A wall segment: centre position. Its size is inferred from where it
/// stands relative to the centre of the field.
#[derive(Clone, Copy, Debug, PartialEq, Eq, Structural)]
pub struct Wall {
    pub pos: Vec2i,
}

#[derive(Clone, Copy, Debug, PartialEq, Eq, Structural)]
pub enum PowerUpType {
    MultiBall,
    WiderPaddle,
    SlowBall,
}

/// A falling power-up: centre position and its effect tag.
#[derive(Clone, Copy, Debug, PartialEq, Eq, Structural)]
pub struct PowerUp {
    pub pos: Vec2i,
    pub power_type: PowerUpType,
}

// --- Resources ---
#[derive(Clone, Copy, Debug, PartialEq, Eq, Structural)]
pub struct Scoreboard {
    pub score: u32,
}

impl Default for Scoreboard {
    /// A fresh scoreboard starts at zero.
    fn default() -> (r: Self)
        ensures
            r.score == 0,
    {
        Scoreboard { score: 0 }
    }
}

#[derive(Clone, Copy, Debug, PartialEq, Eq, Structural)]
pub struct Lives {
    pub count: u32,
}

impl Default for Lives {
    /// A fresh game starts with three lives.
    fn default() -> (r: Self)
        ensures
            r.count == 3,
    {
        Lives { count: 3 }
    }
}

/// The pause menu's keyboard selection: 0 selects Resume, 1 selects Quit.
#[derive(Clone, Copy, Debug, PartialEq, Eq, Structural)]
pub struct PauseMenuState {
    pub selected: u32,
}

impl Default for PauseMenuState {
    fn default() -> (r: Self)
        ensures
            r.selected == 0,
    {
        PauseMenuState { selected: 0 }
    }
}

/// The paddle's current width, widened by a power-up and reverted on
/// expiry.
#[derive(Clone, Copy, Debug, PartialEq, Eq, Structural)]
pub struct PaddleState {
    pub current_width: i64,
}

impl Default for PaddleState {
    fn default() -> (r: Self)
        ensures
            r.current_width == PADDLE_WIDTH,
    {
        PaddleState { current_width: PADDLE_WIDTH }
    }
}

/// Global multiplier on ball speed, in thousandths of the nominal speed.
#[derive(Clone, Copy, Debug, PartialEq, Eq, Structural)]
pub struct BallSpeedModifier {
    pub multiplier: u32,
}

impl Default for BallSpeedModifier {
    fn default() -> (r: Self)
        ensures
            r.multiplier == SPEED_SCALE,
    {
        BallSpeedModifier { multiplier: SPEED_SCALE }
    }
}

/// One active power-up effect: its tag and the milliseconds left before it
/// expires.
#[derive(Clone, Copy, Debug, PartialEq, Eq, Structural)]
pub struct PowerUpTimer {
    pub power_type: PowerUpType,
    pub remaining_ms: u64,
}

/// The active power-up countdowns. A given type appears at most once:
/// re-collecting resets its countdown instead of stacking.
pub struct ActivePowerUps {
    pub timers: Vec<PowerUpTimer>,
}

/// No two entries carry the same power-up type.
pub open spec fn timers_distinct(timers: Seq<PowerUpTimer>) -> bool {
    forall|i: int, j: int|
        0 <= i < j < timers.len() ==> timers[i].power_type != timers[j].power_type
}

impl ActivePowerUps {
    pub open spec fn wf(&self) -> bool {
        timers_distinct(self.timers@)
    }
}

/// The pointer's relation to a pause-menu button this frame.
#[derive(Clone, Copy, Debug, PartialEq, Eq, Structural)]
pub enum Interaction {
    Pressed,
    Hovered,
    Idle,
}

/// How a pause-menu button asks to be drawn.
#[derive(Clone, Copy, Debug, PartialEq, Eq, Structural)]
pub enum ButtonVisual {
    Normal,
    Highlighted,
    Held,
}

// --- Logical input ---
/// The logical input signals one frame consumes: "held" lasts as long as
/// the key is down, "pressed" fires only on the frame the key went down.
#[derive(Clone, Copy, Debug, PartialEq, Eq, Structural)]
pub struct InputState {
    pub left_held: bool,
    pub right_held: bool,
    pub confirm_pressed: bool,
    pub pause_pressed: bool,
    pub up_pressed: bool,
    pub down_pressed: bool,
}

// --- Presentation-layer requests ---
/// An overlay entity the presentation layer is asked to draw. The
/// simulation tracks the live set so that state transitions can clear it.
#[derive(Clone, Copy, Debug, PartialEq, Eq, Structural)]
pub enum OverlayKind {
    MenuText,
    PauseBackdrop,
    PausePanel,
    GameOverText,
    VictoryText,
}

// --- Well-formedness ---
pub open spec fn ball_wf(b: Ball) -> bool {
    &&& in_coord_range(b.pos)
    &&& -VEL_LIMIT <= b.velocity.x <= VEL_LIMIT
    &&& -VEL_LIMIT <= b.velocity.y <= VEL_LIMIT
}

pub open spec fn paddle_wf(p: Paddle) -> bool {
    -COORD_LIMIT <= p.x <= COORD_LIMIT
}

pub open spec fn brick_wf(b: Brick) -> bool {
    in_coord_range(b.pos)
}

pub open spec fn wall_wf(w: Wall) -> bool {
    in_coord_range(w.pos)
}

pub open spec fn powerup_wf(p: PowerUp) -> bool {
    in_coord_range(p.pos)
}

pub open spec fn balls_wf(balls: Seq<Ball>) -> bool {
    forall|i: int| 0 <= i < balls.len() ==> ball_wf(#[trigger] balls[i])
}

pub open spec fn bricks_wf(bricks: Seq<Brick>) -> bool {
    forall|i: int| 0 <= i < bricks.len() ==> brick_wf(#[trigger] bricks[i])
}

pub open spec fn walls_wf(walls: Seq<Wall>) -> bool {
    forall|i: int| 0 <= i < walls.len() ==> wall_wf(#[trigger] walls[i])
}

pub open spec fn powerups_wf(powerups: Seq<PowerUp>) -> bool {
    forall|i: int| 0 <= i < powerups.len() ==> powerup_wf(#[trigger] powerups[i])
}

} // verus!
