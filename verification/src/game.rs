//! Game state machine: Menu, Playing, Paused, GameOver and Victory, the
//! transitions between them, and the pause menu's selection logic.

use vstd::prelude::*;

use crate::components::{
    Ball, Brick, ButtonVisual, GameState, Interaction, Lives, OverlayKind, Paddle,
    PauseMenuState, Scoreboard, Wall, PAUSE_MENU_ITEMS,
};
use crate::setup::spawn_game;

verus! {

/// Transitions to game over when the lives are spent: asks for the
/// game-over overlay and queues the state change. Nothing happens while
/// lives remain.
pub fn check_game_over(
    lives: &Lives,
    next_state: &mut Option<GameState>,
    overlays: &mut Vec<OverlayKind>,
)
    ensures
        lives.count == 0 ==> {
            &&& *final(next_state) == Some(GameState::GameOver)
            &&& final(overlays)@ == old(overlays)@.push(OverlayKind::GameOverText)
        },
        lives.count != 0 ==> {
            &&& *final(next_state) == *old(next_state)
            &&& final(overlays)@ == old(overlays)@
        },
{
    if lives.count == 0 {
        *next_state = Some(GameState::GameOver);
        overlays.push(OverlayKind::GameOverText);
    }
}

/// Transitions to victory when no brick is left: asks for the victory
/// overlay (which shows the final score) and queues the state change.
/// Nothing happens while bricks remain.
pub fn check_victory(
    bricks: &Vec<Brick>,
    next_state: &mut Option<GameState>,
    overlays: &mut Vec<OverlayKind>,
)
    ensures
        bricks@.len() == 0 ==> {
            &&& *final(next_state) == Some(GameState::Victory)
            &&& final(overlays)@ == old(overlays)@.push(OverlayKind::VictoryText)
        },
        bricks@.len() != 0 ==> {
            &&& *final(next_state) == *old(next_state)
            &&& final(overlays)@ == old(overlays)@
        },
{
    if bricks.len() == 0 {
        *next_state = Some(GameState::Victory);
        overlays.push(OverlayKind::VictoryText);
    }
}

/// On the menu screen, the confirm action starts the game.
pub fn menu_input(confirm_pressed: bool, next_state: &mut Option<GameState>)
    ensures
        confirm_pressed ==> *final(next_state) == Some(GameState::Playing),
        !confirm_pressed ==> *final(next_state) == *old(next_state),
{
    if confirm_pressed {
        *next_state = Some(GameState::Playing);
    }
}

/// On the game-over and victory screens, the confirm action restarts:
/// score back to zero, lives back to three, every game entity despawned,
/// and the machine sent back to the menu (whose entry rebuilds the world).
pub fn restart_input(
    confirm_pressed: bool,
    next_state: &mut Option<GameState>,
    scoreboard: &mut Scoreboard,
    lives: &mut Lives,
    bricks: &mut Vec<Brick>,
    balls: &mut Vec<Ball>,
    paddle: &mut Option<Paddle>,
    walls: &mut Vec<Wall>,
)
    ensures
        confirm_pressed ==> {
            &&& final(scoreboard).score == 0
            &&& final(lives).count == 3
            &&& final(bricks)@.len() == 0
            &&& final(balls)@.len() == 0
            &&& *final(paddle) is None
            &&& final(walls)@.len() == 0
            &&& *final(next_state) == Some(GameState::Menu)
        },
        !confirm_pressed ==> {
            &&& *final(scoreboard) == *old(scoreboard)
            &&& *final(lives) == *old(lives)
            &&& *final(bricks) == *old(bricks)
            &&& *final(balls) == *old(balls)
            &&& *final(paddle) == *old(paddle)
            &&& *final(walls) == *old(walls)
            &&& *final(next_state) == *old(next_state)
        },
{
    if confirm_pressed {
        scoreboard.score = 0;
        lives.count = 3;
        bricks.clear();
        balls.clear();
        *paddle = None;
        walls.clear();
        *next_state = Some(GameState::Menu);
    }
}

/// Rebuilds the game world on entering the menu after a restart. The very
/// first entry — at process start, when initial setup has already built
/// the world — is suppressed by the first-run guard; afterwards the world
/// is rebuilt only when the paddle is gone, that is, when a restart tore
/// the world down.
pub fn respawn_on_menu_enter(
    first_run_done: &mut bool,
    paddle: &mut Option<Paddle>,
    balls: &mut Vec<Ball>,
    bricks: &mut Vec<Brick>,
    walls: &mut Vec<Wall>,
)
    ensures
        *final(first_run_done),
        !*old(first_run_done) || *old(paddle) is Some ==> {
            &&& *final(paddle) == *old(paddle)
            &&& final(balls)@ == old(balls)@
            &&& final(bricks)@ == old(bricks)@
            &&& final(walls)@ == old(walls)@
        },
        *old(first_run_done) && *old(paddle) is None ==> crate::setup::full_field(
            *final(paddle),
            final(balls)@,
            final(bricks)@,
            final(walls)@,
        ),
        crate::components::balls_wf(old(balls)@) ==> crate::components::balls_wf(final(balls)@),
        crate::components::bricks_wf(old(bricks)@) ==> crate::components::bricks_wf(
            final(bricks)@,
        ),
        crate::components::walls_wf(old(walls)@) ==> crate::components::walls_wf(final(walls)@),
        ((*old(paddle)) matches Some(p) ==> crate::components::paddle_wf(p))
            ==> ((*final(paddle)) matches Some(q) ==> crate::components::paddle_wf(q)),
{
    if !*first_run_done {
        *first_run_done = true;
        return ;
    }
    if paddle.is_none() {
        spawn_game(paddle, balls, bricks, walls);
    }
}

/// What the pause action does in each state: playing pauses, paused
/// resumes, everywhere else it is ignored.
pub open spec fn pause_target(state: GameState) -> Option<GameState> {
    match state {
        GameState::Playing => Some(GameState::Paused),
        GameState::Paused => Some(GameState::Playing),
        GameState::Menu => None,
        GameState::GameOver => None,
        GameState::Victory => None,
    }
}

/// Toggles pause: the pause action switches Playing and Paused into each
/// other and does nothing in any other state.
pub fn pause_input(pause_pressed: bool, state: GameState, next_state: &mut Option<GameState>)
    ensures
        pause_pressed && pause_target(state) is Some ==> *final(next_state) == pause_target(state),
        !(pause_pressed && pause_target(state) is Some) ==> *final(next_state) == *old(next_state),
{
    if pause_pressed {
        match state {
            GameState::Playing => {
                *next_state = Some(GameState::Paused);
            },
            GameState::Paused => {
                *next_state = Some(GameState::Playing);
            },
            _ => {},
        }
    }
}

/// Toggling pause twice lands back where it started: from Playing or
/// Paused, following the pause action's target twice is the identity, and
/// from any other state the action has no target at all.
pub proof fn lemma_pause_toggle_involution(state: GameState)
    ensures
        pause_target(state) matches Some(s) ==> pause_target(s) == Some(state),
        state matches GameState::Menu ==> pause_target(state) is None,
        state matches GameState::GameOver ==> pause_target(state) is None,
        state matches GameState::Victory ==> pause_target(state) is None,
{
}

/// Entering the pause screen: the selection returns to Resume and the two
/// overlay layers (backdrop and panel) are requested.
pub fn spawn_pause_overlay(menu_state: &mut PauseMenuState, overlays: &mut Vec<OverlayKind>)
    ensures
        final(menu_state).selected == 0,
        final(overlays)@ == old(overlays)@.push(OverlayKind::PauseBackdrop).push(
            OverlayKind::PausePanel,
        ),
{
    menu_state.selected = 0;
    overlays.push(OverlayKind::PauseBackdrop);
    overlays.push(OverlayKind::PausePanel);
}

/// Where the pause-menu selection lands after one frame of navigation
/// input: up moves towards Resume, down towards Quit, both saturating at
/// the menu's ends.
pub open spec fn nav_selected(selected: u32, up: bool, down: bool) -> int {
    let after_up: int = if up {
        if selected == 0 {
            0
        } else {
            selected - 1
        }
    } else {
        selected as int
    };
    if down {
        if after_up >= PAUSE_MENU_ITEMS - 1 {
            PAUSE_MENU_ITEMS - 1
        } else {
            after_up + 1
        }
    } else {
        after_up
    }
}

/// However long the run of navigation presses, the selection never leaves
/// the menu: one step from a valid selection is a valid selection.
pub proof fn lemma_nav_selected_clamped(selected: u32, up: bool, down: bool)
    requires
        selected < PAUSE_MENU_ITEMS,
    ensures
        0 <= nav_selected(selected, up, down) < PAUSE_MENU_ITEMS,
{
}

/// Keyboard navigation of the pause menu: up and down move the clamped
/// selection, and the confirm action activates it — Resume returns to
/// play, Quit asks the process to exit (the returned flag).
pub fn pause_menu_keyboard_navigation(
    up_pressed: bool,
    down_pressed: bool,
    confirm_pressed: bool,
    menu_state: &mut PauseMenuState,
    next_state: &mut Option<GameState>,
) -> (exit: bool)
    ensures
        final(menu_state).selected == nav_selected(old(menu_state).selected, up_pressed, down_pressed),
        confirm_pressed && final(menu_state).selected == 0 ==> *final(next_state) == Some(
            GameState::Playing,
        ) && !exit,
        confirm_pressed && final(menu_state).selected == 1 ==> *final(next_state) == *old(
            next_state,
        ) && exit,
        !confirm_pressed ==> *final(next_state) == *old(next_state) && !exit,
{
    if up_pressed {
        menu_state.selected = if menu_state.selected == 0 {
            0
        } else {
            menu_state.selected - 1
        };
    }
    if down_pressed {
        menu_state.selected = if menu_state.selected >= PAUSE_MENU_ITEMS - 1 {
            PAUSE_MENU_ITEMS - 1
        } else {
            menu_state.selected + 1
        };
    }
    let mut exit = false;
    if confirm_pressed {
        if menu_state.selected == 0 {
            *next_state = Some(GameState::Playing);
        } else if menu_state.selected == 1 {
            exit = true;
        }
    }
    exit
}

/// How a button asks to be drawn after a pointer event: a press or hover
/// shows at once; when the pointer leaves, the button goes back to normal
/// unless the keyboard selection still rests on it.
pub open spec fn visual_after(cur: ButtonVisual, inter: Interaction, keyboard_selected: bool) -> ButtonVisual {
    match inter {
        Interaction::Pressed => ButtonVisual::Held,
        Interaction::Hovered => ButtonVisual::Highlighted,
        Interaction::Idle => if keyboard_selected {
            cur
        } else {
            ButtonVisual::Normal
        },
    }
}

/// Pointer interaction with the pause menu's two buttons, Resume first and
/// Quit second; `None` stands for a button whose interaction did not
/// change this frame. A hover pulls the keyboard selection along; a press
/// activates the button: Resume returns to play, Quit asks the process to
/// exit (the returned flag).
pub fn pause_menu_mouse_interaction(
    resume_event: Option<Interaction>,
    quit_event: Option<Interaction>,
    menu_state: &mut PauseMenuState,
    next_state: &mut Option<GameState>,
    resume_visual: &mut ButtonVisual,
    quit_visual: &mut ButtonVisual,
) -> (exit: bool)
    ensures
        ({
            let sel_after_resume: u32 = if resume_event == Some(Interaction::Hovered) {
                0u32
            } else {
                old(menu_state).selected
            };
            let sel: u32 = if quit_event == Some(Interaction::Hovered) {
                1u32
            } else {
                sel_after_resume
            };
            &&& final(menu_state).selected == sel
            &&& *final(resume_visual) == (match resume_event {
                None => *old(resume_visual),
                Some(e) => visual_after(*old(resume_visual), e, sel_after_resume == 0),
            })
            &&& *final(quit_visual) == (match quit_event {
                None => *old(quit_visual),
                Some(e) => visual_after(*old(quit_visual), e, sel == 1),
            })
            &&& *final(next_state) == (if resume_event == Some(Interaction::Pressed) {
                Some(GameState::Playing)
            } else {
                *old(next_state)
            })
            &&& exit == (quit_event == Some(Interaction::Pressed))
        }),
{
    let mut exit = false;
    match resume_event {
        Some(Interaction::Pressed) => {
            *resume_visual = ButtonVisual::Held;
            *next_state = Some(GameState::Playing);
        },
        Some(Interaction::Hovered) => {
            *resume_visual = ButtonVisual::Highlighted;
            menu_state.selected = 0;
        },
        Some(Interaction::Idle) => {
            if menu_state.selected != 0 {
                *resume_visual = ButtonVisual::Normal;
            }
        },
        None => {},
    }
    match quit_event {
        Some(Interaction::Pressed) => {
            *quit_visual = ButtonVisual::Held;
            exit = true;
        },
        Some(Interaction::Hovered) => {
            *quit_visual = ButtonVisual::Highlighted;
            menu_state.selected = 1;
        },
        Some(Interaction::Idle) => {
            if menu_state.selected != 1 {
                *quit_visual = ButtonVisual::Normal;
            }
        },
        None => {},
    }
    exit
}

/// Redraws the two buttons from the keyboard selection: the selected one
/// is highlighted, the other normal — except while the pointer itself is
/// on a button, which takes precedence.
pub fn update_pause_menu_visuals(
    menu_state: &PauseMenuState,
    resume_interaction: Interaction,
    quit_interaction: Interaction,
    resume_visual: &mut ButtonVisual,
    quit_visual: &mut ButtonVisual,
)
    ensures
        *final(resume_visual) == (if resume_interaction == Interaction::Idle {
            if menu_state.selected == 0 {
                ButtonVisual::Highlighted
            } else {
                ButtonVisual::Normal
            }
        } else {
            *old(resume_visual)
        }),
        *final(quit_visual) == (if quit_interaction == Interaction::Idle {
            if menu_state.selected == 1 {
                ButtonVisual::Highlighted
            } else {
                ButtonVisual::Normal
            }
        } else {
            *old(quit_visual)
        }),
{
    if resume_interaction == Interaction::Idle {
        *resume_visual = if menu_state.selected == 0 {
            ButtonVisual::Highlighted
        } else {
            ButtonVisual::Normal
        };
    }
    if quit_interaction == Interaction::Idle {
        *quit_visual = if menu_state.selected == 1 {
            ButtonVisual::Highlighted
        } else {
            ButtonVisual::Normal
        };
    }
}

} // verus!
