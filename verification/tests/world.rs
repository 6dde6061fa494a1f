use breakout_core::components::{
    Ball, GameState, InputState, Interaction, OverlayKind, PauseMenuState, BALL_SIZE,
    DEATH_ZONE_Y, PADDLE_MAX_X,
};
use breakout_core::game::pause_menu_mouse_interaction;
use breakout_core::geometry::Vec2i;
use breakout_core::world::Game;

fn idle() -> InputState {
    InputState {
        left_held: false,
        right_held: false,
        confirm_pressed: false,
        pause_pressed: false,
        up_pressed: false,
        down_pressed: false,
    }
}

#[test]
fn new_game_starts_on_menu_with_full_field() {
    let game = Game::new();
    assert_eq!(game.state, GameState::Menu);
    assert_eq!(game.scoreboard.score, 0);
    assert_eq!(game.lives.count, 3);
    assert_eq!(game.bricks.len(), 50);
    assert_eq!(game.balls.len(), 1);
    assert_eq!(game.walls.len(), 3);
    assert_eq!(game.overlays, vec![OverlayKind::MenuText]);
}

#[test]
fn playing_frame_advances_ball() {
    let mut game = Game::new();
    game.step(InputState { confirm_pressed: true, ..idle() }, 16);
    assert_eq!(game.state, GameState::Playing);

    let before = game.balls[0].pos;
    game.step(idle(), 16);
    let after = game.balls[0].pos;
    assert!(after.y > before.y, "A served ball rises");
    assert!(after.x > before.x, "A served ball drifts sideways");
}

#[test]
fn paddle_follows_held_input_in_play() {
    let mut game = Game::new();
    game.state = GameState::Playing;

    game.step(InputState { right_held: true, ..idle() }, 1000);

    assert_eq!(game.paddle.unwrap().x, PADDLE_MAX_X, "A long press lands on the bound");
}

#[test]
fn lost_ball_costs_a_life_in_play() {
    let mut game = Game::new();
    game.state = GameState::Playing;
    game.balls[0] = Ball {
        pos: Vec2i { x: 0, y: DEATH_ZONE_Y - 10 * BALL_SIZE },
        velocity: Vec2i { x: 0, y: -350 },
    };

    game.step(idle(), 16);

    assert_eq!(game.lives.count, 2);
    assert_eq!(game.balls[0].pos.x, 0);
    assert_eq!(game.state, GameState::Playing);
}

#[test]
fn spent_lives_end_the_game_with_one_overlay() {
    let mut game = Game::new();
    game.state = GameState::Playing;
    game.overlays.clear();
    game.lives.count = 0;

    game.step(idle(), 16);

    assert_eq!(game.state, GameState::GameOver);
    assert_eq!(game.overlays.len(), 1, "Exactly one game-over overlay appears");
}

#[test]
fn cleared_field_wins_with_one_overlay() {
    let mut game = Game::new();
    game.state = GameState::Playing;
    game.overlays.clear();
    game.bricks.clear();
    game.scoreboard.score = 500;

    game.step(idle(), 16);

    assert_eq!(game.state, GameState::Victory);
    assert_eq!(game.overlays.len(), 1, "Exactly one victory overlay appears");
    assert_eq!(game.scoreboard.score, 500, "The final score stays for the overlay");
}

#[test]
fn pausing_resets_selection_and_shows_menu() {
    let mut game = Game::new();
    game.state = GameState::Playing;
    game.overlays.clear();
    game.pause_menu = PauseMenuState { selected: 1 };

    game.step(InputState { pause_pressed: true, ..idle() }, 16);

    assert_eq!(game.state, GameState::Paused);
    assert_eq!(game.pause_menu.selected, 0, "Entering the pause screen selects Resume");
    assert_eq!(game.overlays.len(), 2, "Backdrop and panel are requested");
}

#[test]
fn mouse_hover_pulls_keyboard_selection() {
    let mut menu_state = PauseMenuState { selected: 0 };
    let mut next: Option<GameState> = None;
    let mut resume_visual = breakout_core::components::ButtonVisual::Highlighted;
    let mut quit_visual = breakout_core::components::ButtonVisual::Normal;

    let exit = pause_menu_mouse_interaction(
        None,
        Some(Interaction::Hovered),
        &mut menu_state,
        &mut next,
        &mut resume_visual,
        &mut quit_visual,
    );

    assert!(!exit);
    assert_eq!(menu_state.selected, 1, "Hovering Quit moves the selection there");
    assert_eq!(quit_visual, breakout_core::components::ButtonVisual::Highlighted);
}

#[test]
fn mouse_press_on_resume_returns_to_play() {
    let mut menu_state = PauseMenuState { selected: 1 };
    let mut next: Option<GameState> = None;
    let mut resume_visual = breakout_core::components::ButtonVisual::Normal;
    let mut quit_visual = breakout_core::components::ButtonVisual::Highlighted;

    let exit = pause_menu_mouse_interaction(
        Some(Interaction::Pressed),
        None,
        &mut menu_state,
        &mut next,
        &mut resume_visual,
        &mut quit_visual,
    );

    assert!(!exit);
    assert_eq!(next, Some(GameState::Playing));
}

#[test]
fn mouse_press_on_quit_requests_exit() {
    let mut menu_state = PauseMenuState { selected: 1 };
    let mut next: Option<GameState> = None;
    let mut resume_visual = breakout_core::components::ButtonVisual::Normal;
    let mut quit_visual = breakout_core::components::ButtonVisual::Highlighted;

    let exit = pause_menu_mouse_interaction(
        None,
        Some(Interaction::Pressed),
        &mut menu_state,
        &mut next,
        &mut resume_visual,
        &mut quit_visual,
    );

    assert!(exit, "Pressing Quit asks the process to exit");
    assert_eq!(next, None);
}

#[test]
fn score_never_falls_during_play() {
    let mut game = Game::new();
    game.state = GameState::Playing;

    for _ in 0..100 {
        let before = game.scoreboard.score;
        if game.state != GameState::Playing {
            break;
        }
        game.step(idle(), 16);
        assert!(game.scoreboard.score >= before);
    }
}
