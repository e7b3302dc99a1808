use astraea::end_state;
use astraea::explo_state;
use astraea::start_state;
use astraea::GameState;

#[test]
fn title_screen_waits_without_keys() {
    assert_eq!(start_state::player_interact(false, false), None);
}

#[test]
fn title_screen_space_starts_the_quiz() {
    assert_eq!(start_state::player_interact(true, false), Some(GameState::Game));
}

#[test]
fn title_screen_e_opens_the_explorer() {
    assert_eq!(start_state::player_interact(false, true), Some(GameState::Explo));
}

#[test]
fn title_screen_explorer_wins_over_quiz() {
    assert_eq!(start_state::player_interact(true, true), Some(GameState::Explo));
}

#[test]
fn default_screen_is_the_title() {
    assert_eq!(GameState::default(), GameState::Start);
}

#[test]
fn explorer_escape_leads_to_title() {
    assert_eq!(explo_state::player_interact(true), Some(GameState::Start));
    assert_eq!(explo_state::player_interact(false), None);
}

#[test]
fn closing_screen_space_leads_to_title() {
    assert_eq!(end_state::player_interact(true), Some(GameState::Start));
    assert_eq!(end_state::player_interact(false), None);
}

#[test]
fn closing_screen_tells_the_score() {
    assert_eq!(end_state::final_score_text(0), "final score : 0");
    assert_eq!(end_state::final_score_text(120), "final score : 120");
    assert_eq!(end_state::final_score_text(4294967295), "final score : 4294967295");
}
