use froggi::control::{restart_request, shutdown_request, update_request};
use froggi::control::{
    config_json_form_handler, config_sponsor_wait_time, lock_is_stale, parse_lock_time,
    restart_handler, shutdown_handler, shutdown_signal, trim, update_handler,
    update_menu_handler, update_outcome, worker_exit, ShutdownCause, UpdateOutcome, WorkerExit,
    CONFIG_FORM_0, CONFIG_FORM_1, CONFIG_FORM_2, CONFIG_FORM_3, REMOTE_CARGO_TOML_URL,
    UPDATE_MENU_0, UPDATE_MENU_1, UPDATE_MENU_2, UP_TO_DATE,
};
use froggi::text::{
    contains_char, decimal_string, dot_segment, parse_decimal, push_decimal, push_decimal2,
    segment, split_all, starts_with, str_equal, trim_end_matches_char, trim_start_matches,
};
use froggi::version::{is_out_of_date, parse_version, update_checker, version_line};

#[test]
fn restart_and_shutdown_answer_once() {
    let r = restart_handler(true);
    assert_eq!((r.status, r.body.as_str()), (200, "Restarting..."));
    let r = restart_handler(false);
    assert_eq!((r.status, r.body.as_str()), (405, "Restart already sent!"));
    let s = shutdown_handler(true);
    assert_eq!((s.status, s.body.as_str()), (200, "Shutting down..."));
    let s = shutdown_handler(false);
    assert_eq!((s.status, s.body.as_str()), (405, "Shutdown already sent!"));
}

#[test]
fn update_answers_for_each_check_outcome() {
    let r = update_handler(None, true);
    assert_eq!(r.status, 503);
    assert_eq!(r.body, format!("Failed to make request to {}", REMOTE_CARGO_TOML_URL));
    let r = update_handler(Some(false), true);
    assert_eq!((r.status, r.body.as_str()), (405, "Already up to date!"));
    let r = update_handler(Some(true), false);
    assert_eq!((r.status, r.body.as_str()), (409, "Update already sent!"));
    let r = update_handler(Some(true), true);
    assert_eq!((r.status, r.body.as_str()), (200, "Starting update..."));
}

#[test]
fn shutdown_causes_map_to_supervisor_steps() {
    assert_eq!(shutdown_signal(ShutdownCause::Restart), Some(10));
    assert_eq!(shutdown_signal(ShutdownCause::Shutdown), Some(0));
    assert_eq!(shutdown_signal(ShutdownCause::Update), Some(11));
    assert_eq!(shutdown_signal(ShutdownCause::CtrlC), None);
    assert_eq!(shutdown_signal(ShutdownCause::Terminate), None);
    assert!(matches!(worker_exit(shutdown_signal(ShutdownCause::Restart)), WorkerExit::Restart));
    assert!(matches!(worker_exit(shutdown_signal(ShutdownCause::Update)), WorkerExit::Update));
    assert!(matches!(worker_exit(shutdown_signal(ShutdownCause::Shutdown)), WorkerExit::Exit(0)));
    assert!(matches!(worker_exit(shutdown_signal(ShutdownCause::CtrlC)), WorkerExit::Exit(1)));
    assert!(matches!(worker_exit(Some(3)), WorkerExit::Exit(3)));
}

#[test]
fn update_outcomes() {
    assert!(matches!(update_outcome(false, true, true), UpdateOutcome::RestartWithoutCleanup));
    assert!(matches!(update_outcome(true, false, false), UpdateOutcome::CleanupAndRestart));
    assert!(matches!(update_outcome(true, true, false), UpdateOutcome::Exit(1)));
    assert!(matches!(update_outcome(true, true, true), UpdateOutcome::CleanupAndRestart));
}

#[test]
fn lock_goes_stale_after_thirty_seconds() {
    assert!(!lock_is_stale(129, 100));
    assert!(lock_is_stale(130, 100));
    assert!(lock_is_stale(1_000, 100));
    assert!(!lock_is_stale(100, 100));
}

#[test]
fn lock_time_is_read_after_trimming() {
    assert_eq!(parse_lock_time("1700000000\n"), Some(1_700_000_000));
    assert_eq!(parse_lock_time("  42  "), Some(42));
    assert_eq!(parse_lock_time(""), None);
    assert_eq!(parse_lock_time("abc"), None);
    assert_eq!(parse_lock_time("18446744073709551616"), None);
    assert_eq!(trim("\t hi there \r\n"), "hi there");
    assert_eq!(trim("   "), "");
}

#[test]
fn sponsor_wait_time_keeps_the_old_value_on_bad_input() {
    assert_eq!(config_sponsor_wait_time(5, Some("12")), 12);
    assert_eq!(config_sponsor_wait_time(5, Some("+3")), 3);
    assert_eq!(config_sponsor_wait_time(5, Some("1.5")), 5);
    assert_eq!(config_sponsor_wait_time(5, Some("")), 5);
    assert_eq!(config_sponsor_wait_time(5, None), 5);
}

#[test]
fn update_menu_and_config_form() {
    assert_eq!(
        update_menu_handler(true, "1.0.0", "1.1.0"),
        format!("{}1.0.0{}1.1.0{}", UPDATE_MENU_0, UPDATE_MENU_1, UPDATE_MENU_2)
    );
    assert_eq!(update_menu_handler(false, "1.0.0", "1.1.0"), UP_TO_DATE);
    assert_eq!(
        config_json_form_handler(5, "0.5", "1"),
        format!("{}5{}0.5{}1{}", CONFIG_FORM_0, CONFIG_FORM_1, CONFIG_FORM_2, CONFIG_FORM_3)
    );
}

#[test]
fn version_line_is_read_from_cargo_toml() {
    let toml = "[package]\nname = \"froggi\"\nversion = \"1.4.0\"\nedition = \"2021\"\n";
    assert_eq!(version_line(toml), Some(String::from("1.4.0")));
    assert_eq!(version_line("[package]\nname = \"x\"\n"), None);
}

#[test]
fn versions_parse_into_numbers() {
    assert_eq!(parse_version("0.12.3"), Some(vec![0, 12, 3]));
    assert_eq!(parse_version("255"), Some(vec![255]));
    assert_eq!(parse_version("256.0"), None);
    assert_eq!(parse_version("1.x"), None);
    assert_eq!(parse_version(""), None);
    assert_eq!(parse_version("1..2"), None);
}

#[test]
fn out_of_date_compares_from_the_left() {
    assert!(is_out_of_date(&vec![1, 2, 4], &vec![1, 2, 3]));
    assert!(is_out_of_date(&vec![2, 0, 0], &vec![1, 9, 9]));
    assert!(!is_out_of_date(&vec![1, 2, 3], &vec![1, 2, 3]));
    assert!(!is_out_of_date(&vec![1, 1, 9], &vec![1, 2, 0]));
    assert!(!is_out_of_date(&vec![1, 2, 3, 1], &vec![1, 2, 3]));
}

#[test]
fn update_checker_on_sample_files() {
    let toml = "[package]\nversion = \"1.4.0\"\n";
    assert_eq!(update_checker(toml, "1.3.9"), Some((true, String::from("1.4.0"))));
    assert_eq!(update_checker(toml, "1.4.0"), Some((false, String::from("1.4.0"))));
    assert_eq!(update_checker(toml, "2.0.0"), Some((false, String::from("1.4.0"))));
    assert_eq!(update_checker("[package]\n", "1.0.0"), None);
    assert_eq!(update_checker(toml, "one"), None);
    assert_eq!(update_checker("version = \"1.4\"\n", "1.4.0"), None);
    assert_eq!(update_checker("version = \"1.5\"\n", "1.4.0"), Some((true, String::from("1.5"))));
}

#[test]
fn decimal_text() {
    assert_eq!(decimal_string(0), "0");
    assert_eq!(decimal_string(18_446_744_073_709_551_615), "18446744073709551615");
    let mut s = String::from("t=");
    push_decimal(&mut s, 305);
    push_decimal2(&mut s, 7);
    push_decimal2(&mut s, 42);
    assert_eq!(s, "t=3050742");
}

#[test]
fn parse_decimal_follows_std() {
    assert_eq!(parse_decimal("12", 255), Some(12));
    assert_eq!(parse_decimal("+12", 255), Some(12));
    assert_eq!(parse_decimal("007", 255), Some(7));
    assert_eq!(parse_decimal("255", 255), Some(255));
    assert_eq!(parse_decimal("256", 255), None);
    assert_eq!(parse_decimal("", 255), None);
    assert_eq!(parse_decimal("+", 255), None);
    assert_eq!(parse_decimal("-1", 255), None);
    assert_eq!(parse_decimal(" 1", 255), None);
}

#[test]
fn string_helpers() {
    assert!(str_equal("abc", "abc"));
    assert!(!str_equal("abc", "abd"));
    assert!(!str_equal("abc", "ab"));
    assert!(contains_char("a b", ' '));
    assert!(!contains_char("ab", ' '));
    assert!(starts_with("version = 1", "version = "));
    assert!(!starts_with("ver", "version"));
    assert_eq!(dot_segment("a.b.c", 1), Some(String::from("b")));
    assert_eq!(dot_segment("a.b.c", 3), None);
    assert_eq!(dot_segment("", 0), Some(String::new()));
    assert_eq!(segment("x,,y", ',', 1), Some(String::new()));
    assert_eq!(split_all("a\nb\n", '\n'), vec!["a", "b", ""]);
    assert_eq!(trim_start_matches("ababc", "ab"), "c");
    assert_eq!(trim_end_matches_char("x\"\"", '"'), "x");
}

#[test]
fn restart_and_shutdown_signals_are_sent_once() {
    let mut slot = Some(7u8);
    let (r, taken) = restart_request(&mut slot);
    assert_eq!((r.status, r.body.as_str(), taken), (200, "Restarting...", Some(7)));
    assert_eq!(slot, None);
    for _ in 0..3 {
        let (r, taken) = restart_request(&mut slot);
        assert_eq!((r.status, r.body.as_str(), taken), (405, "Restart already sent!", None));
    }
    let mut down = Some(());
    let (r, taken) = shutdown_request(&mut down);
    assert_eq!((r.status, taken), (200, Some(())));
    let (r, taken) = shutdown_request(&mut down);
    assert_eq!((r.status, r.body.as_str(), taken), (405, "Shutdown already sent!", None));
}

#[test]
fn update_signal_is_taken_only_when_an_update_is_due() {
    let mut slot = Some(1u8);
    let (r, taken) = update_request(Some(false), &mut slot);
    assert_eq!((r.status, taken, slot), (405, None, Some(1)));
    let (r, taken) = update_request(None, &mut slot);
    assert_eq!((r.status, taken, slot), (503, None, Some(1)));
    let (r, taken) = update_request(Some(true), &mut slot);
    assert_eq!((r.status, r.body.as_str(), taken, slot), (200, "Starting update...", Some(1), None));
    let (r, taken) = update_request(Some(true), &mut slot);
    assert_eq!((r.status, r.body.as_str(), taken), (409, "Update already sent!", None));
}
