//! The whole simulation in one place: a `Game` owns every entity and
//! counter, and `step` runs one frame in the fixed stage order, then
//! applies the queued state transition.

use vstd::prelude::*;

use crate::collision::{ball_collision_bricks, ball_collision_walls_and_paddle, ball_death_zone};
use crate::components::{
    balls_wf, bricks_wf, paddle_wf, powerups_wf, walls_wf, ActivePowerUps, Ball,
    BallSpeedModifier, Brick, ButtonVisual, GameState, InputState, Lives, OverlayKind, Paddle,
    PaddleState, PauseMenuState, PowerUp, Scoreboard, Wall, DT_LIMIT, PAUSE_MENU_ITEMS,
    POINTS_PER_BRICK, SPEED_SCALE,
};
use crate::game::{
    check_game_over, check_victory, menu_input, nav_selected, pause_input,
    pause_menu_keyboard_navigation, restart_input, respawn_on_menu_enter, spawn_pause_overlay,
};
use crate::geometry::COORD_LIMIT;
use crate::movement::{move_ball, move_paddle};
use crate::powerups::{
    despawn_powerups_out_of_bounds, move_powerups, powerup_paddle_collision, tick_powerup_timers,
};
use crate::setup::{despawn_overlay, reset_ball_and_paddle, spawn_game, spawn_menu};

verus! {

/// The whole game world: every entity, counter and flag the frame-stepped
/// simulation owns. The presentation layer only reads it.
pub struct Game {
    pub state: GameState,
    pub next_state: Option<GameState>,
    pub scoreboard: Scoreboard,
    pub lives: Lives,
    pub paddle: Option<Paddle>,
    pub paddle_state: PaddleState,
    pub balls: Vec<Ball>,
    pub bricks: Vec<Brick>,
    pub walls: Vec<Wall>,
    pub powerups: Vec<PowerUp>,
    pub active_powerups: ActivePowerUps,
    pub ball_speed_modifier: BallSpeedModifier,
    pub pause_menu: PauseMenuState,
    pub overlays: Vec<OverlayKind>,
    pub resume_visual: ButtonVisual,
    pub quit_visual: ButtonVisual,
    pub menu_entered_once: bool,
    pub exit_requested: bool,
}


// --- One frame, stated as a relation ---
//
// Each stage of the Playing frame is restated here as a two-state
// predicate over whole `Game` values: the fields the stage touches are
// pinned exactly as the stage function's own contract pins them, and
// every other field is unchanged. Chained in the fixed stage order they
// state what one whole frame does; `step` promises that relation.

/// The control-flow flags no simulation stage touches.
pub open spec fn same_flow(a: Game, b: Game) -> bool {
    &&& b.state == a.state
    &&& b.next_state == a.next_state
    &&& b.menu_entered_once == a.menu_entered_once
    &&& b.exit_requested == a.exit_requested
}

/// The pause-menu surface: selection, overlays and button visuals.
pub open spec fn same_panel(a: Game, b: Game) -> bool {
    &&& b.pause_menu == a.pause_menu
    &&& b.overlays@ == a.overlays@
    &&& b.resume_visual == a.resume_visual
    &&& b.quit_visual == a.quit_visual
}

/// Score and lives.
pub open spec fn same_counters(a: Game, b: Game) -> bool {
    &&& b.scoreboard == a.scoreboard
    &&& b.lives == a.lives
}

/// The power-up effect state: paddle width, speed multiplier, countdowns.
pub open spec fn same_effects(a: Game, b: Game) -> bool {
    &&& b.paddle_state == a.paddle_state
    &&& b.ball_speed_modifier == a.ball_speed_modifier
    &&& b.active_powerups.timers@ == a.active_powerups.timers@
}

/// Bricks and walls.
pub open spec fn same_board(a: Game, b: Game) -> bool {
    &&& b.bricks@ == a.bricks@
    &&& b.walls@ == a.walls@
}

/// Movement stage: the paddle follows the held input, every ball advances
/// by its velocity under the global multiplier, every power-up falls.
pub open spec fn stage_moved(a: Game, b: Game, input: InputState, dt_ms: int) -> bool {
    &&& (a.paddle is None ==> b.paddle == a.paddle)
    &&& (a.paddle matches Some(p) ==> b.paddle == Some(
        Paddle {
            x: crate::movement::paddle_pos_after(
                p.x as int,
                input.left_held,
                input.right_held,
                dt_ms,
            ) as i64,
        },
    ))
    &&& b.balls@.len() == a.balls@.len()
    &&& (forall|i: int|
        0 <= i < b.balls@.len() ==> {
            let ob = #[trigger] a.balls@[i];
            &&& b.balls@[i].velocity == ob.velocity
            &&& b.balls@[i].pos.x == crate::movement::moved_coord(
                ob.pos.x as int,
                ob.velocity.x as int,
                a.ball_speed_modifier.multiplier as int,
                dt_ms,
            )
            &&& b.balls@[i].pos.y == crate::movement::moved_coord(
                ob.pos.y as int,
                ob.velocity.y as int,
                a.ball_speed_modifier.multiplier as int,
                dt_ms,
            )
        })
    &&& b.powerups@.len() == a.powerups@.len()
    &&& (forall|i: int|
        0 <= i < b.powerups@.len() ==> {
            let op = #[trigger] a.powerups@[i];
            &&& b.powerups@[i].power_type == op.power_type
            &&& b.powerups@[i].pos.x == op.pos.x
            &&& b.powerups@[i].pos.y == crate::powerups::powerup_fallen_y(op.pos.y as int, dt_ms)
        })
    &&& same_flow(a, b)
    &&& same_panel(a, b)
    &&& same_counters(a, b)
    &&& same_effects(a, b)
    &&& same_board(a, b)
}

/// Wall-and-paddle bounce stage, for exactly one ball: the paddle first,
/// then the first overlapping wall; nothing else changes.
pub open spec fn stage_bounce(a: Game, b: Game) -> bool {
    &&& (a.balls@.len() != 1 ==> b.balls@ == a.balls@)
    &&& (a.balls@.len() == 1 ==> {
        let ball = a.balls@[0];
        &&& (crate::collision::paddle_blocks(a.paddle, ball) ==> b.balls@ == a.balls@.update(
            0,
            crate::collision::paddle_bounced(ball, a.paddle->Some_0),
        ))
        &&& (!crate::collision::paddle_blocks(a.paddle, ball) ==> {
            &&& ((forall|k: int|
                0 <= k < a.walls@.len() ==> !crate::collision::wall_hit(
                    ball,
                    #[trigger] a.walls@[k],
                )) ==> b.balls@ == a.balls@)
            &&& ((exists|k: int|
                0 <= k < a.walls@.len() && crate::collision::wall_hit(
                    ball,
                    #[trigger] a.walls@[k],
                )) ==> (exists|i: int|
                {
                    &&& 0 <= i < a.walls@.len()
                    &&& crate::collision::wall_hit(ball, #[trigger] a.walls@[i])
                    &&& (forall|j: int|
                        0 <= j < i ==> !crate::collision::wall_hit(ball, #[trigger] a.walls@[j]))
                    &&& b.balls@ == a.balls@.update(
                        0,
                        crate::collision::wall_bounced(ball, a.walls@[i]),
                    )
                }))
        })
    })
    &&& b.paddle == a.paddle
    &&& b.powerups@ == a.powerups@
    &&& same_flow(a, b)
    &&& same_panel(a, b)
    &&& same_counters(a, b)
    &&& same_effects(a, b)
    &&& same_board(a, b)
}

/// Brick stage, for exactly one ball: the first overlapping brick leaves,
/// the score rises by the brick's points, the ball bounces off it.
pub open spec fn stage_bricks(a: Game, b: Game) -> bool {
    &&& (a.balls@.len() != 1 ==> {
        &&& b.balls@ == a.balls@
        &&& b.bricks@ == a.bricks@
        &&& b.scoreboard == a.scoreboard
    })
    &&& (a.balls@.len() == 1 ==> {
        let ball = a.balls@[0];
        &&& ((forall|k: int|
            0 <= k < a.bricks@.len() ==> !crate::collision::brick_hit(
                ball,
                #[trigger] a.bricks@[k],
            )) ==> {
            &&& b.balls@ == a.balls@
            &&& b.bricks@ == a.bricks@
            &&& b.scoreboard == a.scoreboard
        })
        &&& ((exists|k: int|
            0 <= k < a.bricks@.len() && crate::collision::brick_hit(
                ball,
                #[trigger] a.bricks@[k],
            )) ==> (exists|i: int|
            {
                &&& 0 <= i < a.bricks@.len()
                &&& crate::collision::brick_hit(ball, #[trigger] a.bricks@[i])
                &&& (forall|j: int|
                    0 <= j < i ==> !crate::collision::brick_hit(ball, #[trigger] a.bricks@[j]))
                &&& b.bricks@ == a.bricks@.remove(i)
                &&& b.balls@ == a.balls@.update(
                    0,
                    crate::collision::bounced(
                        ball,
                        crate::geometry::aabb_side(
                            ball.pos,
                            crate::collision::ball_box(),
                            a.bricks@[i].pos,
                            crate::collision::brick_box(),
                        )->Some_0,
                        a.bricks@[i].pos,
                        crate::collision::brick_box(),
                    ),
                )
                &&& b.scoreboard.score == a.scoreboard.score + POINTS_PER_BRICK
            }))
    })
    &&& b.paddle == a.paddle
    &&& b.powerups@ == a.powerups@
    &&& b.walls@ == a.walls@
    &&& b.lives == a.lives
    &&& same_flow(a, b)
    &&& same_panel(a, b)
    &&& same_effects(a, b)
}

/// Death-zone stage, for exactly one ball: below the death line one life
/// goes (never under zero) and the ball is served afresh.
pub open spec fn stage_death(a: Game, b: Game) -> bool {
    &&& (a.balls@.len() != 1 ==> {
        &&& b.balls@ == a.balls@
        &&& b.lives == a.lives
    })
    &&& (a.balls@.len() == 1 ==> {
        let ball = a.balls@[0];
        &&& (ball.pos.y < crate::components::DEATH_ZONE_Y ==> {
            &&& b.lives.count == (if a.lives.count == 0 {
                0u32
            } else {
                (a.lives.count - 1) as u32
            })
            &&& b.balls@ == a.balls@.update(0, crate::collision::served_ball())
        })
        &&& (ball.pos.y >= crate::components::DEATH_ZONE_Y ==> {
            &&& b.balls@ == a.balls@
            &&& b.lives == a.lives
        })
    })
    &&& b.paddle == a.paddle
    &&& b.powerups@ == a.powerups@
    &&& b.scoreboard == a.scoreboard
    &&& same_flow(a, b)
    &&& same_panel(a, b)
    &&& same_effects(a, b)
    &&& same_board(a, b)
}

/// Power-up pickup stage: every power-up on the paddle applies its effect
/// and despawns, per the collection fold; a no-op without a paddle.
pub open spec fn stage_pickup(a: Game, b: Game) -> bool {
    &&& (a.paddle is None ==> {
        &&& b.powerups@ == a.powerups@
        &&& b.balls@ == a.balls@
        &&& same_effects(a, b)
    })
    &&& (a.paddle matches Some(p) ==> {
        let r = crate::powerups::powerups_collected(
            a.powerups@,
            p.x,
            a.paddle_state.current_width,
            (crate::powerups::EffectState {
                timers: a.active_powerups.timers@,
                width: a.paddle_state.current_width as int,
                multiplier: a.ball_speed_modifier.multiplier as int,
                balls: a.balls@,
            }),
        );
        &&& b.powerups@ == r.1
        &&& b.active_powerups.timers@ == r.0.timers
        &&& b.paddle_state.current_width == r.0.width
        &&& b.ball_speed_modifier.multiplier == r.0.multiplier
        &&& b.balls@ == r.0.balls
    })
    &&& b.paddle == a.paddle
    &&& same_flow(a, b)
    &&& same_panel(a, b)
    &&& same_counters(a, b)
    &&& same_board(a, b)
}

/// Power-up culling stage: the power-ups below the death line leave.
pub open spec fn stage_cull(a: Game, b: Game) -> bool {
    &&& b.powerups@ == a.powerups@.filter(|p: PowerUp| crate::powerups::powerup_alive(p))
    &&& b.paddle == a.paddle
    &&& b.balls@ == a.balls@
    &&& same_flow(a, b)
    &&& same_panel(a, b)
    &&& same_counters(a, b)
    &&& same_effects(a, b)
    &&& same_board(a, b)
}

/// Timer stage: every countdown ticks, finished effects revert or zero,
/// finished entries leave.
pub open spec fn stage_tick(a: Game, b: Game, dt_ms: int) -> bool {
    &&& b.active_powerups.timers@ == crate::powerups::ticked_timers(
        a.active_powerups.timers@,
        dt_ms,
    )
    &&& b.paddle_state.current_width == (if crate::powerups::any_fires(
        a.active_powerups.timers@,
        crate::components::PowerUpType::WiderPaddle,
        dt_ms,
    ) {
        crate::components::PADDLE_WIDTH as int
    } else {
        a.paddle_state.current_width as int
    })
    &&& b.ball_speed_modifier.multiplier == (if crate::powerups::any_fires(
        a.active_powerups.timers@,
        crate::components::PowerUpType::SlowBall,
        dt_ms,
    ) {
        0int
    } else {
        a.ball_speed_modifier.multiplier as int
    })
    &&& b.paddle == a.paddle
    &&& b.balls@ == a.balls@
    &&& b.powerups@ == a.powerups@
    &&& same_flow(a, b)
    &&& same_panel(a, b)
    &&& same_counters(a, b)
    &&& same_board(a, b)
}

/// End-of-frame checks: spent lives queue game over, an empty field queues
/// victory (each with its overlay), and the pause action, last, overrides
/// the queued transition.
pub open spec fn stage_checks(a: Game, b: Game, input: InputState) -> bool {
    let next_go: Option<GameState> = if a.lives.count == 0 {
        Some(GameState::GameOver)
    } else {
        a.next_state
    };
    let over_go: Seq<OverlayKind> = if a.lives.count == 0 {
        a.overlays@.push(OverlayKind::GameOverText)
    } else {
        a.overlays@
    };
    let next_win: Option<GameState> = if a.bricks@.len() == 0 {
        Some(GameState::Victory)
    } else {
        next_go
    };
    let over_win: Seq<OverlayKind> = if a.bricks@.len() == 0 {
        over_go.push(OverlayKind::VictoryText)
    } else {
        over_go
    };
    &&& b.next_state == (if input.pause_pressed && crate::game::pause_target(a.state) is Some {
        crate::game::pause_target(a.state)
    } else {
        next_win
    })
    &&& b.overlays@ == over_win
    &&& b.state == a.state
    &&& b.menu_entered_once == a.menu_entered_once
    &&& b.exit_requested == a.exit_requested
    &&& b.paddle == a.paddle
    &&& b.balls@ == a.balls@
    &&& b.powerups@ == a.powerups@
    &&& b.pause_menu == a.pause_menu
    &&& b.resume_visual == a.resume_visual
    &&& b.quit_visual == a.quit_visual
    &&& same_counters(a, b)
    &&& same_effects(a, b)
    &&& same_board(a, b)
}

/// One whole Playing frame before its transition is applied: the stages
/// above, chained in their fixed order.
pub open spec fn playing_stages(pre: Game, post: Game, input: InputState, dt_ms: int) -> bool {
    exists|s1: Game, s2: Game, s3: Game, s4: Game, s5: Game, s6: Game, s7: Game|
        #![trigger stage_moved(pre, s1, input, dt_ms), stage_bounce(s1, s2), stage_bricks(s2, s3), stage_death(s3, s4), stage_pickup(s4, s5), stage_cull(s5, s6), stage_tick(s6, s7, dt_ms)]
        {
            &&& stage_moved(pre, s1, input, dt_ms)
            &&& stage_bounce(s1, s2)
            &&& stage_bricks(s2, s3)
            &&& stage_death(s3, s4)
            &&& stage_pickup(s4, s5)
            &&& stage_cull(s5, s6)
            &&& stage_tick(s6, s7, dt_ms)
            &&& stage_checks(s7, post, input)
        }
}

/// A confirm on an end screen tears the session down: counters reset,
/// every game entity despawned, the menu queued; without it, nothing at
/// all happens.
pub open spec fn restart_rel(pre: Game, mid: Game, input: InputState) -> bool {
    if input.confirm_pressed {
        &&& mid.scoreboard.score == 0
        &&& mid.lives.count == 3
        &&& mid.bricks@.len() == 0
        &&& mid.balls@.len() == 0
        &&& mid.paddle is None
        &&& mid.walls@.len() == 0
        &&& mid.next_state == Some(GameState::Menu)
        &&& mid.state == pre.state
        &&& mid.menu_entered_once == pre.menu_entered_once
        &&& mid.exit_requested == pre.exit_requested
        &&& mid.powerups@ == pre.powerups@
        &&& same_effects(pre, mid)
        &&& same_panel(pre, mid)
    } else {
        mid == pre
    }
}

/// What the state handlers of one frame do, before the queued transition
/// is applied: dispatch on the state the frame began in.
pub open spec fn handlers_rel(pre: Game, mid: Game, input: InputState, dt_ms: int) -> bool {
    match pre.state {
        GameState::Menu => {
            &&& mid.next_state == (if input.confirm_pressed {
                Some(GameState::Playing)
            } else {
                pre.next_state
            })
            &&& mid.state == pre.state
            &&& mid.menu_entered_once == pre.menu_entered_once
            &&& mid.exit_requested == pre.exit_requested
            &&& mid.paddle == pre.paddle
            &&& mid.balls@ == pre.balls@
            &&& mid.powerups@ == pre.powerups@
            &&& same_panel(pre, mid)
            &&& same_counters(pre, mid)
            &&& same_effects(pre, mid)
            &&& same_board(pre, mid)
        },
        GameState::Playing => playing_stages(pre, mid, input, dt_ms),
        GameState::Paused => {
            let sel = nav_selected(pre.pause_menu.selected, input.up_pressed, input.down_pressed);
            &&& mid.pause_menu.selected == sel
            &&& mid.next_state == (if input.pause_pressed {
                Some(GameState::Playing)
            } else if input.confirm_pressed && sel == 0 {
                Some(GameState::Playing)
            } else {
                pre.next_state
            })
            &&& mid.exit_requested == (pre.exit_requested || (input.confirm_pressed && sel == 1))
            &&& mid.state == pre.state
            &&& mid.menu_entered_once == pre.menu_entered_once
            &&& mid.paddle == pre.paddle
            &&& mid.balls@ == pre.balls@
            &&& mid.powerups@ == pre.powerups@
            &&& mid.overlays@ == pre.overlays@
            &&& mid.resume_visual == pre.resume_visual
            &&& mid.quit_visual == pre.quit_visual
            &&& same_counters(pre, mid)
            &&& same_effects(pre, mid)
            &&& same_board(pre, mid)
        },
        GameState::GameOver => restart_rel(pre, mid, input),
        GameState::Victory => restart_rel(pre, mid, input),
    }
}

/// Applying the queued state change: the departing state's overlays leave
/// (play has none to clear), the new state's entry effects run, and
/// nothing else moves.
pub open spec fn transition_applied(a: Game, b: Game) -> bool {
    match a.next_state {
        None => b == a,
        Some(ns) => {
            &&& b.next_state is None
            &&& same_counters(a, b)
            &&& b.exit_requested == a.exit_requested
            &&& b.powerups@ == a.powerups@
            &&& same_effects(a, b)
            &&& b.resume_visual == a.resume_visual
            &&& b.quit_visual == a.quit_visual
            &&& (ns == a.state ==> {
                &&& b.state == a.state
                &&& b.paddle == a.paddle
                &&& b.balls@ == a.balls@
                &&& same_board(a, b)
                &&& b.pause_menu == a.pause_menu
                &&& b.overlays@ == a.overlays@
                &&& b.menu_entered_once == a.menu_entered_once
            })
            &&& (ns != a.state ==> {
                let cleared: Seq<OverlayKind> = if a.state == GameState::Playing {
                    a.overlays@
                } else {
                    Seq::<OverlayKind>::empty()
                };
                &&& b.state == ns
                &&& (match ns {
                    GameState::Menu => {
                        &&& b.overlays@ == cleared.push(OverlayKind::MenuText)
                        &&& b.menu_entered_once
                        &&& ((!a.menu_entered_once || a.paddle is Some) ==> {
                            &&& b.paddle == a.paddle
                            &&& b.balls@ == a.balls@
                            &&& same_board(a, b)
                        })
                        &&& (a.menu_entered_once && a.paddle is None
                            ==> crate::setup::full_field(b.paddle, b.balls@, b.bricks@, b.walls@))
                        &&& b.pause_menu == a.pause_menu
                    },
                    GameState::Playing => {
                        &&& b.overlays@ == cleared
                        &&& (a.paddle is Some ==> b.paddle == Some(Paddle { x: 0 }))
                        &&& (a.paddle is None ==> b.paddle == a.paddle)
                        &&& (a.balls@.len() == 1 ==> b.balls@ == a.balls@.update(
                            0,
                            crate::collision::served_ball(),
                        ))
                        &&& (a.balls@.len() != 1 ==> b.balls@ == a.balls@)
                        &&& same_board(a, b)
                        &&& b.pause_menu == a.pause_menu
                        &&& b.menu_entered_once == a.menu_entered_once
                    },
                    GameState::Paused => {
                        &&& b.overlays@ == cleared.push(OverlayKind::PauseBackdrop).push(
                            OverlayKind::PausePanel,
                        )
                        &&& b.pause_menu.selected == 0
                        &&& b.paddle == a.paddle
                        &&& b.balls@ == a.balls@
                        &&& same_board(a, b)
                        &&& b.menu_entered_once == a.menu_entered_once
                    },
                    GameState::GameOver => {
                        &&& b.overlays@ == cleared
                        &&& b.paddle == a.paddle
                        &&& b.balls@ == a.balls@
                        &&& same_board(a, b)
                        &&& b.pause_menu == a.pause_menu
                        &&& b.menu_entered_once == a.menu_entered_once
                    },
                    GameState::Victory => {
                        &&& b.overlays@ == cleared
                        &&& b.paddle == a.paddle
                        &&& b.balls@ == a.balls@
                        &&& same_board(a, b)
                        &&& b.pause_menu == a.pause_menu
                        &&& b.menu_entered_once == a.menu_entered_once
                    },
                })
            })
        },
    }
}

/// One whole frame: the state handlers run, then the queued transition is
/// applied.
pub open spec fn step_frame(pre: Game, post: Game, input: InputState, dt_ms: int) -> bool {
    exists|mid: Game| #[trigger] handlers_rel(pre, mid, input, dt_ms) && transition_applied(
        mid,
        post,
    )
}

impl Game {
    /// What every frame preserves: all entities within their bounds, no
    /// duplicated power-up timer, the speed multiplier never above one,
    /// the score bounded by what the brick supply can pay out, a torn-down
    /// world (no paddle) carrying neither score nor bricks, the pause
    /// selection inside the menu, and never more than the starting lives.
    pub open spec fn wf_core(&self) -> bool {
        &&& (self.paddle matches Some(p) ==> paddle_wf(p))
        &&& balls_wf(self.balls@)
        &&& bricks_wf(self.bricks@)
        &&& walls_wf(self.walls@)
        &&& powerups_wf(self.powerups@)
        &&& self.active_powerups.wf()
        &&& 0 <= self.paddle_state.current_width <= COORD_LIMIT
        &&& self.ball_speed_modifier.multiplier <= SPEED_SCALE
        &&& self.scoreboard.score + POINTS_PER_BRICK * self.bricks@.len() <= 1_000_000
        &&& (self.paddle is None ==> self.scoreboard.score == 0 && self.bricks@.len() == 0)
        &&& self.pause_menu.selected < PAUSE_MENU_ITEMS
        &&& self.lives.count <= 3
    }

    /// Between frames the transition queue is drained too.
    pub open spec fn wf(&self) -> bool {
        &&& self.wf_core()
        &&& self.next_state is None
    }

    /// A fresh game: the menu screen over the fixed initial play field,
    /// three lives, score zero, no effect active.
    pub fn new() -> (g: Game)
        ensures
            g.wf(),
            g.state == GameState::Menu,
            g.scoreboard.score == 0,
            g.lives.count == 3,
            crate::setup::full_field(g.paddle, g.balls@, g.bricks@, g.walls@),
            g.powerups@ =~= Seq::<PowerUp>::empty(),
            g.active_powerups.timers@ =~= Seq::<crate::components::PowerUpTimer>::empty(),
            g.paddle_state.current_width == crate::components::PADDLE_WIDTH,
            g.ball_speed_modifier.multiplier == SPEED_SCALE,
            g.pause_menu.selected == 0,
            g.overlays@ =~= seq![OverlayKind::MenuText],
            g.resume_visual == ButtonVisual::Highlighted,
            g.quit_visual == ButtonVisual::Normal,
            g.menu_entered_once,
            !g.exit_requested,
    {
        let mut paddle: Option<Paddle> = None;
        let mut balls: Vec<Ball> = Vec::new();
        let mut bricks: Vec<Brick> = Vec::new();
        let mut walls: Vec<Wall> = Vec::new();
        spawn_game(&mut paddle, &mut balls, &mut bricks, &mut walls);
        let mut overlays: Vec<OverlayKind> = Vec::new();
        spawn_menu(&mut overlays);
        Game {
            state: GameState::Menu,
            next_state: None,
            scoreboard: Scoreboard { score: 0 },
            lives: Lives { count: 3 },
            paddle,
            paddle_state: PaddleState { current_width: crate::components::PADDLE_WIDTH },
            balls,
            bricks,
            walls,
            powerups: Vec::new(),
            active_powerups: ActivePowerUps { timers: Vec::new() },
            ball_speed_modifier: BallSpeedModifier { multiplier: SPEED_SCALE },
            pause_menu: PauseMenuState { selected: 0 },
            overlays,
            resume_visual: ButtonVisual::Highlighted,
            quit_visual: ButtonVisual::Normal,
            menu_entered_once: true,
            exit_requested: false,
        }
    }

    /// Runs one frame. In Playing the stages run in the fixed order:
    /// movement (paddle, balls, falling power-ups), wall and paddle
    /// bounces, brick collisions, the death zone, power-up pickups and
    /// expiry, then the game-over and victory checks, and last the pause
    /// toggle, whose queued transition wins the frame. In the menu and the
    /// end screens only their input handlers run; in Paused the keyboard
    /// navigation and the pause toggle. The frame ends by applying the
    /// queued transition with its exit and entry effects.
    pub fn step(&mut self, input: InputState, dt_ms: u64)
        requires
            old(self).wf(),
            dt_ms <= DT_LIMIT,
        ensures
            final(self).wf(),
            old(self).state == GameState::Menu && input.confirm_pressed ==> final(self).state
                == GameState::Playing,
            old(self).state == GameState::Menu && !input.confirm_pressed ==> *final(self) == *old(
                self,
            ),
            (old(self).state == GameState::GameOver || old(self).state == GameState::Victory)
                && input.confirm_pressed ==> {
                &&& final(self).state == GameState::Menu
                &&& final(self).scoreboard.score == 0
                &&& final(self).lives.count == 3
            },
            (old(self).state == GameState::GameOver || old(self).state == GameState::Victory)
                && !input.confirm_pressed ==> *final(self) == *old(self),
            old(self).state == GameState::Playing ==> {
                &&& final(self).scoreboard.score >= old(self).scoreboard.score
                &&& final(self).lives.count <= old(self).lives.count
                &&& final(self).bricks@.len() <= old(self).bricks@.len()
            },
            old(self).state == GameState::Playing && input.pause_pressed ==> final(self).state
                == GameState::Paused,
            old(self).state == GameState::Playing && !input.pause_pressed ==> (final(self).state
                == GameState::Playing || final(self).state == GameState::GameOver
                || final(self).state == GameState::Victory),
            old(self).state == GameState::Paused ==> {
                &&& final(self).pause_menu.selected == nav_selected(
                    old(self).pause_menu.selected,
                    input.up_pressed,
                    input.down_pressed,
                )
                &&& (input.pause_pressed ==> final(self).state == GameState::Playing)
                &&& (!input.pause_pressed && input.confirm_pressed && nav_selected(
                    old(self).pause_menu.selected,
                    input.up_pressed,
                    input.down_pressed,
                ) == 0 ==> final(self).state == GameState::Playing)
                &&& (!input.pause_pressed && input.confirm_pressed && nav_selected(
                    old(self).pause_menu.selected,
                    input.up_pressed,
                    input.down_pressed,
                ) == 1 ==> final(self).exit_requested)
                &&& (!input.pause_pressed && !input.confirm_pressed ==> final(self).state
                    == GameState::Paused)
            },
            final(self).exit_requested == (old(self).exit_requested || (old(self).state
                == GameState::Paused && input.confirm_pressed && nav_selected(
                old(self).pause_menu.selected,
                input.up_pressed,
                input.down_pressed,
            ) == 1)),
            step_frame(*old(self), *final(self), input, dt_ms as int),
    {
        match self.state {
            GameState::Menu => {
                menu_input(input.confirm_pressed, &mut self.next_state);
            },
            GameState::Playing => {
                move_paddle(&mut self.paddle, input.left_held, input.right_held, dt_ms);
                move_ball(&mut self.balls, self.ball_speed_modifier.multiplier, dt_ms);
                move_powerups(&mut self.powerups, dt_ms);
                let ghost s1 = *self;
                ball_collision_walls_and_paddle(&mut self.balls, &self.paddle, &self.walls);
                let ghost s2 = *self;
                ball_collision_bricks(&mut self.balls, &mut self.bricks, &mut self.scoreboard);
                let ghost s3 = *self;
                ball_death_zone(&mut self.balls, &mut self.lives);
                let ghost s4 = *self;
                powerup_paddle_collision(
                    &mut self.powerups,
                    &self.paddle,
                    &mut self.paddle_state,
                    &mut self.ball_speed_modifier,
                    &mut self.active_powerups,
                    &mut self.balls,
                );
                let ghost s5 = *self;
                despawn_powerups_out_of_bounds(&mut self.powerups);
                let ghost s6 = *self;
                tick_powerup_timers(
                    dt_ms,
                    &mut self.active_powerups,
                    &mut self.paddle_state,
                    &mut self.ball_speed_modifier,
                );
                let ghost s7 = *self;
                check_game_over(&self.lives, &mut self.next_state, &mut self.overlays);
                check_victory(&self.bricks, &mut self.next_state, &mut self.overlays);
                pause_input(input.pause_pressed, self.state, &mut self.next_state);
                proof {
                    assert(stage_moved(*old(self), s1, input, dt_ms as int));
                    assert(stage_bounce(s1, s2));
                    assert(stage_bricks(s2, s3));
                    assert(stage_death(s3, s4));
                    assert(stage_pickup(s4, s5));
                    assert(stage_cull(s5, s6));
                    assert(stage_tick(s6, s7, dt_ms as int));
                    assert(stage_checks(s7, *self, input));
                    assert(playing_stages(*old(self), *self, input, dt_ms as int));
                }
            },
            GameState::Paused => {
                let exit = pause_menu_keyboard_navigation(
                    input.up_pressed,
                    input.down_pressed,
                    input.confirm_pressed,
                    &mut self.pause_menu,
                    &mut self.next_state,
                );
                if exit {
                    self.exit_requested = true;
                }
                pause_input(input.pause_pressed, self.state, &mut self.next_state);
            },
            GameState::GameOver => {
                restart_input(
                    input.confirm_pressed,
                    &mut self.next_state,
                    &mut self.scoreboard,
                    &mut self.lives,
                    &mut self.bricks,
                    &mut self.balls,
                    &mut self.paddle,
                    &mut self.walls,
                );
            },
            GameState::Victory => {
                restart_input(
                    input.confirm_pressed,
                    &mut self.next_state,
                    &mut self.scoreboard,
                    &mut self.lives,
                    &mut self.bricks,
                    &mut self.balls,
                    &mut self.paddle,
                    &mut self.walls,
                );
            },
        }
        let ghost mid = *self;
        proof {
            assert(handlers_rel(*old(self), mid, input, dt_ms as int));
        }
        self.apply_transition();
        proof {
            assert(transition_applied(mid, *self));
            assert(step_frame(*old(self), *self, input, dt_ms as int));
        }
    }

    /// Applies the queued state change, if any: the old state's overlay
    /// leaves, the new state's entry effects run.
    fn apply_transition(&mut self)
        requires
            old(self).wf_core(),
        ensures
            final(self).wf(),
            transition_applied(*old(self), *final(self)),
            old(self).next_state is None ==> *final(self) == *old(self),
            final(self).next_state is None,
            final(self).state == (match old(self).next_state {
                Some(ns) => ns,
                None => old(self).state,
            }),
            final(self).scoreboard == old(self).scoreboard,
            final(self).lives == old(self).lives,
            final(self).exit_requested == old(self).exit_requested,
            old(self).next_state != Some(GameState::Menu)
                ==> final(self).bricks == old(self).bricks,
            old(self).next_state matches Some(ns) && ns != old(self).state && ns
                != GameState::Paused ==> final(self).pause_menu == old(self).pause_menu,
            old(self).next_state == Some(GameState::Paused) && old(self).state
                != GameState::Paused ==> final(self).pause_menu.selected == 0,
            old(self).next_state matches Some(ns) && ns == old(self).state
                ==> final(self).pause_menu == old(self).pause_menu,
    {
        let ns = match self.next_state {
            Some(ns) => ns,
            None => {
                return ;
            },
        };
        self.next_state = None;
        if ns == self.state {
            return ;
        }
        match self.state {
            GameState::Menu => despawn_overlay(&mut self.overlays),
            GameState::Paused => despawn_overlay(&mut self.overlays),
            GameState::GameOver => despawn_overlay(&mut self.overlays),
            GameState::Victory => despawn_overlay(&mut self.overlays),
            GameState::Playing => {},
        }
        proof {
            if self.state != GameState::Playing {
                assert(self.overlays@ =~= Seq::<OverlayKind>::empty());
            }
        }
        self.state = ns;
        match ns {
            GameState::Menu => {
                spawn_menu(&mut self.overlays);
                respawn_on_menu_enter(
                    &mut self.menu_entered_once,
                    &mut self.paddle,
                    &mut self.balls,
                    &mut self.bricks,
                    &mut self.walls,
                );
            },
            GameState::Playing => {
                reset_ball_and_paddle(&mut self.paddle, &mut self.balls);
            },
            GameState::Paused => {
                spawn_pause_overlay(&mut self.pause_menu, &mut self.overlays);
            },
            GameState::GameOver => {},
            GameState::Victory => {},
        }
    }
}

} // verus!
