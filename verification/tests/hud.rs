use breakout_core::components::{Lives, Scoreboard};
use breakout_core::hud::{u32_to_string, update_lives_ui, update_scoreboard_ui};

#[test]
fn decimal_formatting_matches_expected() {
    assert_eq!(u32_to_string(0).as_str(), "0");
    assert_eq!(u32_to_string(7).as_str(), "7");
    assert_eq!(u32_to_string(10).as_str(), "10");
    assert_eq!(u32_to_string(500).as_str(), "500");
    assert_eq!(u32_to_string(4294967295).as_str(), "4294967295");
}

#[test]
fn score_line_shows_score() {
    assert_eq!(update_scoreboard_ui(&Scoreboard { score: 130 }).as_str(), "Score: 130");
}

#[test]
fn lives_line_shows_lives() {
    assert_eq!(update_lives_ui(&Lives { count: 3 }).as_str(), "Lives: 3");
    assert_eq!(update_lives_ui(&Lives { count: 0 }).as_str(), "Lives: 0");
}
