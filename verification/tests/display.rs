use froggi::display::{
    away_points_display_handler, downs_display_handler, home_points_display_handler,
    logs_handler, ordinal_text, push_down_and_togo, push_show_hide, push_togo,
    quarter_display_handler, team_name_display_handler, visibility_buttons_handler,
    visibility_toggle_handler, BUTTONS_0, BUTTONS_1, BUTTONS_2, BUTTONS_3, BUTTONS_4,
};
use froggi::state::{AppState, AppStateSerde};

#[test]
fn ordinals_of_the_four_downs() {
    assert_eq!(ordinal_text(1), "1st");
    assert_eq!(ordinal_text(2), "2nd");
    assert_eq!(ordinal_text(3), "3rd");
    assert_eq!(ordinal_text(4), "4th");
    assert_eq!(ordinal_text(0), "");
    assert_eq!(ordinal_text(5), "");
}

#[test]
fn quarters_after_the_fourth_are_overtime() {
    let mut s = AppState::default();
    assert_eq!(quarter_display_handler(&s), "1st");
    s.quarter = 4;
    assert_eq!(quarter_display_handler(&s), "4th");
    s.quarter = 5;
    assert_eq!(quarter_display_handler(&s), "OT");
    s.quarter = 0;
    assert_eq!(quarter_display_handler(&s), "OT");
}

#[test]
fn downs_display_variants() {
    let mut s = AppState::default();
    s.down = 1;
    s.downs_togo = 10;
    assert_eq!(downs_display_handler(&s, "down"), "1st");
    assert_eq!(downs_display_handler(&s, "togo"), "10");
    assert_eq!(downs_display_handler(&s, "both"), "1st & 10");
    assert_eq!(downs_display_handler(&s, "nothing"), "");
    s.down = 4;
    s.downs_togo = 101;
    assert_eq!(downs_display_handler(&s, "togo"), "Goal");
    assert_eq!(downs_display_handler(&s, "both"), "4th & Goal");
    s.downs_togo = 0;
    assert_eq!(downs_display_handler(&s, "togo"), "Hidden");
    assert_eq!(downs_display_handler(&s, "both"), "4th");
}

#[test]
fn push_helpers_append() {
    let mut t = String::from("x");
    push_down_and_togo(&mut t, 2, 7);
    assert_eq!(t, "x2nd & 7");
    let mut u = String::from(">");
    push_togo(&mut u, 99);
    assert_eq!(u, ">99");
    let mut v = String::new();
    push_show_hide(&mut v, true, "Downs");
    assert_eq!(v, "Hide Downs");
}

#[test]
fn scores_and_names_display() {
    let mut s = AppState::default();
    s.home_points = 21;
    s.away_points = 1234567;
    assert_eq!(home_points_display_handler(&s), "21");
    assert_eq!(away_points_display_handler(&s), "1234567");
    s.home_name = String::from("Frogs");
    assert_eq!(team_name_display_handler(&s, "home"), "Frogs");
    assert_eq!(team_name_display_handler(&s, "away"), "Away");
    assert_eq!(team_name_display_handler(&s, "referee"), "");
}

#[test]
fn buttons_name_the_action_a_press_would_take() {
    let s = AppState::default();
    let expected = format!(
        "{}Show Countdown{}Hide Downs/To Go{}Hide Scoreboard{}Show Sponsors{}",
        BUTTONS_0, BUTTONS_1, BUTTONS_2, BUTTONS_3, BUTTONS_4
    );
    assert_eq!(visibility_buttons_handler(&s, false), expected);
    assert!(visibility_buttons_handler(&s, true).contains("Hide Sponsors"));
}

#[test]
fn toggling_flips_one_switch_and_labels_it() {
    let mut s = AppState::default();
    let mut sponsors = false;
    assert_eq!(visibility_toggle_handler(&mut s, &mut sponsors, "countdown"), "Hide Countdown");
    assert!(s.show_countdown);
    assert_eq!(visibility_toggle_handler(&mut s, &mut sponsors, "downs"), "Show Downs/To Go");
    assert!(!s.show_downs);
    assert_eq!(visibility_toggle_handler(&mut s, &mut sponsors, "scoreboard"), "Show Scoreboard");
    assert!(!s.show_scoreboard);
    assert_eq!(visibility_toggle_handler(&mut s, &mut sponsors, "sponsors"), "Hide Sponsors");
    assert!(sponsors);
    assert_eq!(visibility_toggle_handler(&mut s, &mut sponsors, "unknown"), "Show ");
    assert!(s.show_countdown && !s.show_downs && !s.show_scoreboard && sponsors);
}

#[test]
fn toggling_twice_restores_the_switches() {
    let mut s = AppState::default();
    let mut sponsors = true;
    for v in ["countdown", "downs", "scoreboard", "sponsors"] {
        visibility_toggle_handler(&mut s, &mut sponsors, v);
        visibility_toggle_handler(&mut s, &mut sponsors, v);
    }
    assert!(!s.show_countdown);
    assert!(s.show_downs);
    assert!(s.show_scoreboard);
    assert!(sponsors);
}

#[test]
fn logs_show_newest_first_with_numbers() {
    let logs = vec![String::from("started"), String::from("score"), String::from("reset")];
    assert_eq!(
        logs_handler(&logs),
        "<span>(3) reset</span><br><span>(2) score</span><br><span>(1) started</span>"
    );
    assert_eq!(logs_handler(&Vec::new()), "");
    assert_eq!(logs_handler(&vec![String::from("one")]), "<span>(1) one</span>");
}

#[test]
fn save_then_load_gives_back_the_state() {
    let mut s = AppState::default();
    s.home_points = 14;
    s.away_name = String::from("Toads");
    s.quarter = 3;
    s.show_countdown = true;
    let saved = AppStateSerde::consume_app_state(s, true, false, 123_000, 4_000);
    assert_eq!(saved.home_points, 14);
    assert!(saved.show_sponsors);
    let (mut sp, mut ocr, mut gc, mut cc) = (false, true, 0u64, 0u64);
    let loaded = AppState::load_saved_state(saved, &mut sp, &mut ocr, &mut gc, &mut cc);
    assert_eq!(loaded.home_points, 14);
    assert_eq!(loaded.away_name, "Toads");
    assert_eq!(loaded.quarter, 3);
    assert!(loaded.show_countdown);
    assert!(sp);
    assert!(!ocr);
    assert_eq!(gc, 123_000);
    assert_eq!(cc, 4_000);
}
