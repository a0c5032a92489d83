use froggi::clock::Clock;
use froggi::scoring::{
    away_points_set_handler, away_points_update_handler, countdown_text_set_handler,
    downs_set_handler, downs_togo_set_handler, downs_togo_update_handler, downs_update_handler,
    home_points_set_handler, home_points_update_handler, quarter_set_handler,
    quarter_update_handler, reset_handler, u32_as_i32, u8_as_i8, TextPayload,
};
use froggi::state::AppState;

fn fresh() -> AppState {
    AppState::default()
}

#[test]
fn default_state_is_a_fresh_game() {
    let s = fresh();
    assert_eq!(s.home_points, 0);
    assert_eq!(s.home_name, "Home");
    assert_eq!(s.away_points, 0);
    assert_eq!(s.away_name, "Away");
    assert_eq!(s.quarter, 1);
    assert_eq!(s.preset_id, "");
    assert_eq!(s.down, 1);
    assert_eq!(s.downs_togo, 1);
    assert_eq!(s.countdown_text, "Countdown");
    assert!(!s.show_countdown);
    assert!(s.show_downs);
    assert!(s.show_scoreboard);
}

#[test]
fn points_update_adds_and_never_goes_negative() {
    let mut s = fresh();
    home_points_update_handler(&mut s, 7);
    assert_eq!(s.home_points, 7);
    home_points_update_handler(&mut s, -3);
    assert_eq!(s.home_points, 4);
    home_points_update_handler(&mut s, -5);
    assert_eq!(s.home_points, 4);
    home_points_update_handler(&mut s, -4);
    assert_eq!(s.home_points, 0);
    away_points_update_handler(&mut s, 3);
    away_points_update_handler(&mut s, -10);
    assert_eq!(s.away_points, 3);
    assert_eq!(s.home_points, 0);
}

#[test]
fn points_set_replaces_the_score() {
    let mut s = fresh();
    home_points_set_handler(&mut s, 21);
    away_points_set_handler(&mut s, 14);
    assert_eq!((s.home_points, s.away_points), (21, 14));
}

#[test]
fn reinterpreting_casts_wrap() {
    assert_eq!(u32_as_i32(5), 5);
    assert_eq!(u32_as_i32(0x8000_0000), i32::MIN);
    assert_eq!(u32_as_i32(u32::MAX), -1);
    assert_eq!(u8_as_i8(127), 127);
    assert_eq!(u8_as_i8(128), -128);
    assert_eq!(u8_as_i8(255), -1);
}

#[test]
fn huge_scores_read_as_negative_do_not_change() {
    let mut s = fresh();
    home_points_set_handler(&mut s, 0x8000_0005);
    home_points_update_handler(&mut s, 1);
    assert_eq!(s.home_points, 0x8000_0005);
}

#[test]
fn downs_set_accepts_only_one_to_four() {
    let mut s = fresh();
    downs_set_handler(&mut s, 3);
    assert_eq!(s.down, 3);
    downs_set_handler(&mut s, 5);
    assert_eq!(s.down, 3);
    downs_set_handler(&mut s, 0);
    assert_eq!(s.down, 3);
}

#[test]
fn downs_update_wraps_around() {
    let mut s = fresh();
    downs_update_handler(&mut s, 1);
    assert_eq!(s.down, 2);
    downs_update_handler(&mut s, 2);
    assert_eq!(s.down, 4);
    downs_update_handler(&mut s, 1);
    assert_eq!(s.down, 1);
    downs_update_handler(&mut s, -1);
    assert_eq!(s.down, 4);
    downs_update_handler(&mut s, -10);
    assert_eq!(s.down, 4);
}

#[test]
fn togo_set_accepts_hidden_to_goal() {
    let mut s = fresh();
    downs_togo_set_handler(&mut s, 101);
    assert_eq!(s.downs_togo, 101);
    downs_togo_set_handler(&mut s, 0);
    assert_eq!(s.downs_togo, 0);
    downs_togo_set_handler(&mut s, 102);
    assert_eq!(s.downs_togo, 0);
}

#[test]
fn togo_update_wraps_between_goal_and_hidden() {
    let mut s = fresh();
    downs_togo_update_handler(&mut s, 9);
    assert_eq!(s.downs_togo, 10);
    downs_togo_update_handler(&mut s, -11);
    assert_eq!(s.downs_togo, 101);
    downs_togo_update_handler(&mut s, 1);
    assert_eq!(s.downs_togo, 0);
}

#[test]
fn quarter_moves_only_within_one_to_five() {
    let mut s = fresh();
    quarter_update_handler(&mut s, 1);
    assert_eq!(s.quarter, 2);
    quarter_update_handler(&mut s, 3);
    assert_eq!(s.quarter, 5);
    quarter_update_handler(&mut s, 1);
    assert_eq!(s.quarter, 5);
    quarter_update_handler(&mut s, -5);
    assert_eq!(s.quarter, 5);
    quarter_set_handler(&mut s, 9);
    assert_eq!(s.quarter, 9);
}

#[test]
fn countdown_text_is_set() {
    let mut s = fresh();
    countdown_text_set_handler(&mut s, TextPayload { text: String::from("Halftime") });
    assert_eq!(s.countdown_text, "Halftime");
}

#[test]
fn reset_restores_a_fresh_game_and_stops_clocks() {
    let mut s = fresh();
    home_points_set_handler(&mut s, 9);
    s.home_name = String::from("Frogs");
    s.show_downs = false;
    s.preset_id = String::from("abc");
    let mut game = Clock { millis: 5000, running: true, end_instant: 99 };
    let mut countdown = Clock { millis: 7000, running: true, end_instant: 42 };
    let mut sponsors = true;
    let mut ocr = true;
    reset_handler(&mut s, &mut game, &mut countdown, &mut sponsors, &mut ocr);
    let f = fresh();
    assert_eq!(s.home_points, f.home_points);
    assert_eq!(s.home_name, f.home_name);
    assert_eq!(s.preset_id, f.preset_id);
    assert_eq!(s.show_downs, f.show_downs);
    assert_eq!((game.millis, game.running), (0, false));
    assert_eq!((countdown.millis, countdown.running), (0, false));
    assert!(!sponsors);
    assert!(!ocr);
}
