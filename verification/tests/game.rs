use breakout_core::components::{
    Brick, GameState, InputState, Lives, OverlayKind, PauseMenuState, Scoreboard,
};
use breakout_core::game::{check_game_over, check_victory, pause_menu_keyboard_navigation};
use breakout_core::geometry::Vec2i;
use breakout_core::hud::update_scoreboard_ui;
use breakout_core::world::Game;

fn idle_input() -> InputState {
    InputState {
        left_held: false,
        right_held: false,
        confirm_pressed: false,
        pause_pressed: false,
        up_pressed: false,
        down_pressed: false,
    }
}

fn pause_pressed() -> InputState {
    InputState { pause_pressed: true, ..idle_input() }
}

fn confirm_pressed() -> InputState {
    InputState { confirm_pressed: true, ..idle_input() }
}

#[test]
fn game_over_when_no_lives() {
    let lives = Lives { count: 0 };
    let mut next: Option<GameState> = None;
    let mut overlays: Vec<OverlayKind> = Vec::new();

    check_game_over(&lives, &mut next, &mut overlays);

    assert_eq!(overlays.len(), 1, "Should spawn a game-over overlay");
    assert_eq!(next, Some(GameState::GameOver));
}

#[test]
fn no_game_over_with_lives_remaining() {
    let lives = Lives { count: 3 };
    let mut next: Option<GameState> = None;
    let mut overlays: Vec<OverlayKind> = Vec::new();

    check_game_over(&lives, &mut next, &mut overlays);

    assert_eq!(overlays.len(), 0, "Should not spawn overlay when lives > 0");
    assert_eq!(next, None);
}

#[test]
fn victory_when_no_bricks() {
    let bricks: Vec<Brick> = Vec::new();
    let mut next: Option<GameState> = None;
    let mut overlays: Vec<OverlayKind> = Vec::new();

    check_victory(&bricks, &mut next, &mut overlays);

    assert_eq!(overlays.len(), 1, "Should spawn a victory overlay");
    assert_eq!(next, Some(GameState::Victory));
}

#[test]
fn no_victory_with_bricks_remaining() {
    let bricks = vec![Brick { pos: Vec2i { x: 0, y: 100 } }];
    let mut next: Option<GameState> = None;
    let mut overlays: Vec<OverlayKind> = Vec::new();

    check_victory(&bricks, &mut next, &mut overlays);

    assert_eq!(overlays.len(), 0, "Should not spawn overlay when bricks remain");
    assert_eq!(next, None);
}

#[test]
fn scoreboard_ui_updates_on_change() {
    let zero = update_scoreboard_ui(&Scoreboard { score: 0 });
    assert_eq!(zero.as_str(), "Score: 0");

    let text = update_scoreboard_ui(&Scoreboard { score: 42 });
    assert_eq!(text.as_str(), "Score: 42");
}

#[test]
fn pause_input_pauses_game() {
    let mut game = Game::new();
    game.state = GameState::Playing;

    game.step(pause_pressed(), 16);

    assert_eq!(game.state, GameState::Paused, "ESC in Playing should transition to Paused");
}

#[test]
fn pause_input_resumes_game() {
    let mut game = Game::new();
    game.state = GameState::Paused;

    game.step(pause_pressed(), 16);

    assert_eq!(game.state, GameState::Playing, "ESC in Paused should transition to Playing");
}

#[test]
fn pause_input_ignored_in_menu() {
    let mut game = Game::new();

    game.step(pause_pressed(), 16);

    assert_eq!(game.state, GameState::Menu, "ESC in Menu should not change state");
}

#[test]
fn pause_input_ignored_in_game_over() {
    let mut game = Game::new();
    game.state = GameState::GameOver;

    game.step(pause_pressed(), 16);

    assert_eq!(game.state, GameState::GameOver, "ESC in GameOver should not change state");
}

#[test]
fn keyboard_navigation_moves_selection_down() {
    let mut menu_state = PauseMenuState { selected: 0 };
    let mut next: Option<GameState> = None;

    assert_eq!(menu_state.selected, 0);
    pause_menu_keyboard_navigation(false, true, false, &mut menu_state, &mut next);

    assert_eq!(menu_state.selected, 1, "Down arrow should move selection to Quit");
}

#[test]
fn keyboard_navigation_moves_selection_up() {
    let mut menu_state = PauseMenuState { selected: 1 };
    let mut next: Option<GameState> = None;

    pause_menu_keyboard_navigation(true, false, false, &mut menu_state, &mut next);

    assert_eq!(menu_state.selected, 0, "Up arrow should move selection to Resume");
}

#[test]
fn keyboard_navigation_clamps_at_top() {
    let mut menu_state = PauseMenuState { selected: 0 };
    let mut next: Option<GameState> = None;

    assert_eq!(menu_state.selected, 0);
    pause_menu_keyboard_navigation(true, false, false, &mut menu_state, &mut next);

    assert_eq!(menu_state.selected, 0, "Selection should not go below 0");
}

#[test]
fn keyboard_navigation_clamps_at_bottom() {
    let mut menu_state = PauseMenuState { selected: 1 };
    let mut next: Option<GameState> = None;

    pause_menu_keyboard_navigation(false, true, false, &mut menu_state, &mut next);

    assert_eq!(menu_state.selected, 1, "Selection should not exceed menu items");
}

#[test]
fn enter_on_resume_transitions_to_playing() {
    let mut game = Game::new();
    game.state = GameState::Paused;
    game.pause_menu = PauseMenuState { selected: 0 };

    game.step(confirm_pressed(), 16);

    assert_eq!(game.state, GameState::Playing, "Enter on Resume should transition to Playing");
}

#[test]
fn space_on_resume_transitions_to_playing() {
    let mut game = Game::new();
    game.state = GameState::Paused;
    game.pause_menu = PauseMenuState { selected: 0 };

    game.step(confirm_pressed(), 16);

    assert_eq!(game.state, GameState::Playing, "Space on Resume should transition to Playing");
}

#[test]
fn quit_selection_requests_exit() {
    let mut game = Game::new();
    game.state = GameState::Paused;
    game.pause_menu = PauseMenuState { selected: 1 };

    game.step(confirm_pressed(), 16);

    assert!(game.exit_requested, "Confirm on Quit should ask the process to exit");
    assert_eq!(game.state, GameState::Paused);
}

#[test]
fn restart_resets_and_respawns() {
    let mut game = Game::new();
    game.state = GameState::GameOver;
    game.scoreboard = Scoreboard { score: 120 };
    game.lives = Lives { count: 0 };

    game.step(confirm_pressed(), 16);

    assert_eq!(game.state, GameState::Menu);
    assert_eq!(game.scoreboard.score, 0);
    assert_eq!(game.lives.count, 3);
    assert_eq!(game.bricks.len(), 50, "Entering the menu after a restart rebuilds the grid");
    assert!(game.paddle.is_some());
}

#[test]
fn menu_confirm_starts_playing() {
    let mut game = Game::new();

    game.step(confirm_pressed(), 16);

    assert_eq!(game.state, GameState::Playing);
    assert_eq!(game.overlays.len(), 0, "Leaving the menu clears its overlay");
}
