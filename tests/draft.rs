use fantasy_draft::draft::{Action, App, InputMode, Key, Roster};
use fantasy_draft::player::Player;
use fantasy_draft::positions::Position;

fn player(name: &str, positions: Vec<Position>) -> Player {
    Player {
        name: name.to_string(),
        team: "T".to_string(),
        position: positions,
        draft_percent: "1%".to_string(),
    }
}

fn strings(v: &[&str]) -> Vec<String> {
    v.iter().map(|s| s.to_string()).collect()
}

fn three_player_app() -> App {
    App::new(vec![
        player("Amy Adams", vec![Position::PG]),
        player("Ben Bold", vec![Position::C]),
        player("Cal Cole", vec![Position::SF]),
    ])
}

#[test]
fn end_to_end_pick_for_my_team() {
    let mut app = App::new(vec![player("Joe Smith", vec![Position::PG])]);
    assert_eq!(app.input_mode, InputMode::Idle);
    assert_eq!(app.handle_event(Key::Char('s')), Action::Nothing);
    assert_eq!(app.input_mode, InputMode::Searching);
    assert_eq!(app.selected_position, Position::ANY);
    assert_eq!(app.filtered_players, strings(&["Joe Smith"]));
    app.handle_event(Key::Tab);
    assert_eq!(app.input, "Joe Smith");
    assert_eq!(app.selected_player, Some(0));
    app.handle_event(Key::Enter);
    assert_eq!(app.input_mode, InputMode::Picking);
    assert_eq!(app.candidate_player, "Joe Smith");
    let act = app.handle_event(Key::Char('a'));
    assert_eq!(act, Action::Save(Roster::Mine, "[\"Joe Smith\"]".to_string()));
    assert_eq!(app.my_players, strings(&["Joe Smith"]));
    assert_eq!(app.input_mode, InputMode::Searching);
    assert_eq!(app.input, "");
    assert_eq!(app.candidate_player, "");
    assert!(app.filtered_players.is_empty());
}

#[test]
fn pick_for_other_team_and_exclusion() {
    let mut app = three_player_app();
    app.handle_event(Key::Enter);
    app.handle_event(Key::Char('2'));
    assert_eq!(app.input, "Ben Bold");
    assert_eq!(app.selected_player, Some(0));
    app.handle_event(Key::Enter);
    assert_eq!(app.candidate_player, "Ben Bold");
    let act = app.handle_event(Key::Char('B'));
    assert_eq!(act, Action::Save(Roster::Other, "[\"Ben Bold\"]".to_string()));
    assert_eq!(app.other_players, strings(&["Ben Bold"]));
    assert!(app.my_players.is_empty());
    assert_eq!(app.filtered_players, strings(&["Amy Adams", "Cal Cole"]));
}

#[test]
fn picked_player_never_shown_again() {
    let mut app = three_player_app();
    app.handle_event(Key::Char('s'));
    app.handle_event(Key::Tab);
    app.handle_event(Key::Enter);
    app.handle_event(Key::Enter);
    assert_eq!(app.my_players, strings(&["Amy Adams"]));
    for c in "amy".chars() {
        app.handle_event(Key::Char(c));
    }
    assert!(app.filtered_players.is_empty());
    for _ in 0..10 {
        app.handle_event(Key::Right);
        assert!(!app.filtered_players.contains(&"Amy Adams".to_string()));
    }
}

#[test]
fn typing_and_backspace_refilter() {
    let mut app = three_player_app();
    app.handle_event(Key::Char('s'));
    app.handle_event(Key::Char('c'));
    assert_eq!(app.input, "c");
    assert_eq!(app.filtered_players, strings(&["Cal Cole"]));
    app.handle_event(Key::Char('x'));
    assert!(app.filtered_players.is_empty());
    app.handle_event(Key::Backspace);
    assert_eq!(app.input, "c");
    assert_eq!(app.filtered_players, strings(&["Cal Cole"]));
    app.handle_event(Key::Backspace);
    app.handle_event(Key::Backspace);
    assert_eq!(app.input, "");
    assert_eq!(app.filtered_players.len(), 3);
}

#[test]
fn up_and_down_move_selection_within_bounds() {
    let mut app = three_player_app();
    app.handle_event(Key::Down);
    assert_eq!(app.input_mode, InputMode::Searching);
    assert_eq!(app.selected_player, None);
    app.handle_event(Key::Up);
    assert_eq!(app.selected_player, None);
    app.handle_event(Key::Down);
    assert_eq!(app.selected_player, Some(0));
    app.handle_event(Key::Down);
    app.handle_event(Key::Down);
    app.handle_event(Key::Down);
    assert_eq!(app.selected_player, Some(2));
    app.handle_event(Key::Up);
    assert_eq!(app.selected_player, Some(1));
    app.handle_event(Key::Up);
    app.handle_event(Key::Up);
    assert_eq!(app.selected_player, Some(0));
    app.handle_event(Key::Down);
    app.handle_event(Key::Enter);
    assert_eq!(app.input_mode, InputMode::Picking);
    assert_eq!(app.candidate_player, "Ben Bold");
}

#[test]
fn digits_out_of_range_are_ignored() {
    let mut app = three_player_app();
    app.handle_event(Key::Char('s'));
    app.handle_event(Key::Char('0'));
    app.handle_event(Key::Char('4'));
    assert_eq!(app.input, "");
    assert_eq!(app.selected_player, None);
    app.handle_event(Key::Char('3'));
    assert_eq!(app.input, "Cal Cole");
    assert_eq!(app.filtered_players, strings(&["Cal Cole"]));
    assert_eq!(app.selected_player, Some(0));
}

#[test]
fn enter_without_selection_selects_first() {
    let mut app = three_player_app();
    app.handle_event(Key::Char('s'));
    app.handle_event(Key::Enter);
    assert_eq!(app.input_mode, InputMode::Searching);
    assert_eq!(app.input, "Amy Adams");
    assert_eq!(app.selected_player, Some(0));
}

#[test]
fn enter_on_empty_list_does_nothing() {
    let mut app = three_player_app();
    app.handle_event(Key::Char('s'));
    app.handle_event(Key::Char('q'));
    assert!(app.filtered_players.is_empty());
    app.handle_event(Key::Enter);
    app.handle_event(Key::Tab);
    assert_eq!(app.input_mode, InputMode::Searching);
    assert_eq!(app.input, "q");
    assert_eq!(app.selected_player, None);
}

#[test]
fn escape_returns_to_idle_and_clears() {
    let mut app = three_player_app();
    app.handle_event(Key::Char('s'));
    app.handle_event(Key::Char('a'));
    app.handle_event(Key::Esc);
    assert_eq!(app.input_mode, InputMode::Idle);
    assert_eq!(app.input, "");
    assert_eq!(app.selected_player, None);
    assert_eq!(app.filtered_players.len(), 3);
}

#[test]
fn escape_while_picking_discards_candidate() {
    let mut app = three_player_app();
    app.handle_event(Key::Char('s'));
    app.handle_event(Key::Tab);
    app.handle_event(Key::Enter);
    assert_eq!(app.input_mode, InputMode::Picking);
    assert_eq!(app.handle_event(Key::Char('z')), Action::Nothing);
    assert_eq!(app.input_mode, InputMode::Picking);
    app.handle_event(Key::Esc);
    assert_eq!(app.input_mode, InputMode::Searching);
    assert_eq!(app.candidate_player, "");
    assert_eq!(app.input, "");
    assert!(app.my_players.is_empty() && app.other_players.is_empty());
    assert_eq!(app.filtered_players.len(), 3);
}

#[test]
fn group_navigation_refilters_in_every_mode() {
    let mut app = three_player_app();
    app.handle_event(Key::Right);
    assert_eq!(app.selected_position, Position::PG);
    assert_eq!(app.input_mode, InputMode::Idle);
    assert_eq!(app.filtered_players, strings(&["Amy Adams"]));
    app.handle_event(Key::Left);
    app.handle_event(Key::Left);
    assert_eq!(app.selected_position, Position::SHORT);
    assert_eq!(app.filtered_players, strings(&["Amy Adams"]));
    app.handle_event(Key::Left);
    assert_eq!(app.selected_position, Position::TALL);
    assert_eq!(app.filtered_players, strings(&["Ben Bold", "Cal Cole"]));
}

#[test]
fn group_navigation_clears_selection() {
    let mut app = three_player_app();
    app.handle_event(Key::Char('s'));
    app.handle_event(Key::Down);
    assert_eq!(app.selected_player, Some(0));
    app.handle_event(Key::Right);
    assert_eq!(app.selected_player, None);
    assert_eq!(app.input_mode, InputMode::Searching);
}

#[test]
fn quit_and_listing_from_idle() {
    let mut app = three_player_app();
    assert_eq!(app.handle_event(Key::Char('q')), Action::Quit);
    assert_eq!(app.input_mode, InputMode::Idle);
    assert_eq!(app.handle_event(Key::Char('l')), Action::Nothing);
    assert_eq!(app.input_mode, InputMode::Listing);
    assert_eq!(app.handle_event(Key::Char('s')), Action::Nothing);
    assert_eq!(app.input_mode, InputMode::Listing);
    app.handle_event(Key::Char('q'));
    assert_eq!(app.input_mode, InputMode::Idle);
}

#[test]
fn picks_accumulate_in_saved_json() {
    let mut app = three_player_app();
    app.handle_event(Key::Char('s'));
    app.handle_event(Key::Tab);
    app.handle_event(Key::Enter);
    app.handle_event(Key::Char('A'));
    app.handle_event(Key::Tab);
    app.handle_event(Key::Enter);
    let act = app.handle_event(Key::Enter);
    assert_eq!(act, Action::Save(Roster::Mine, "[\"Amy Adams\",\"Ben Bold\"]".to_string()));
    assert_eq!(app.my_players, strings(&["Amy Adams", "Ben Bold"]));
}

#[test]
fn restored_rosters_are_excluded() {
    let mut app = three_player_app();
    app.set_rosters(strings(&["Amy Adams"]), strings(&["Cal Cole"]));
    app.handle_event(Key::Char('s'));
    assert_eq!(app.filtered_players, strings(&["Ben Bold"]));
}
