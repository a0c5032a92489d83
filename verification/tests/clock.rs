use froggi::clock::{
    clock_process_init, countdown_clock_process, countdown_clock_ticker, game_clock_process,
    game_clock_ticker, new_clock, set_countdown_clock, set_game_clock, start_countdown_clock,
    start_game_clock, stop_countdown_clock, stop_game_clock, Clock,
};
use froggi::time::{
    countdown_clock_ctl_handler, countdown_clock_display_handler, countdown_clock_set_handler,
    countdown_clock_set_mins_handler, countdown_clock_set_secs_handler,
    countdown_clock_update_handler, game_clock_ctl_handler, game_clock_display_handler,
    game_clock_set_handler, game_clock_set_mins_handler, game_clock_set_secs_handler,
    game_clock_update_handler,
};

fn stopped(millis: u64) -> Clock {
    Clock { millis, running: false, end_instant: 0 }
}

#[test]
fn new_clock_is_zero_and_stopped() {
    let c = new_clock();
    assert_eq!(c.millis, 0);
    assert!(!c.running);
}

#[test]
fn setting_a_stopped_clock_shows_the_reading() {
    let mut c = stopped(5);
    set_game_clock(&mut c, 90_000, 1_000);
    assert_eq!(c.millis, 90_000);
    assert!(!c.running);
}

#[test]
fn setting_a_running_clock_moves_its_end() {
    let mut c = Clock { millis: 10_000, running: true, end_instant: 11_000 };
    set_countdown_clock(&mut c, 30_000, 2_000);
    assert_eq!(c.end_instant, 32_000);
    assert_eq!(c.millis, 10_000);
    countdown_clock_process(&mut c, 2_000);
    assert_eq!(c.millis, 30_000);
}

#[test]
fn set_then_read_gives_the_value_set() {
    let mut c = Clock { millis: 1, running: true, end_instant: 500 };
    set_game_clock(&mut c, 45_000, 400);
    game_clock_process(&mut c, 400);
    assert_eq!(c.millis, 45_000);
    assert!(c.running);
}

#[test]
fn start_then_read_keeps_the_reading() {
    let mut c = stopped(12_345);
    start_game_clock(&mut c, 1_000);
    assert!(c.running);
    assert_eq!(c.end_instant, 13_345);
    game_clock_process(&mut c, 1_000);
    assert_eq!(c.millis, 12_345);
}

#[test]
fn a_running_clock_counts_down_and_stops_at_zero() {
    let mut c = stopped(3_000);
    start_countdown_clock(&mut c, 0);
    countdown_clock_process(&mut c, 1_000);
    assert_eq!(c.millis, 2_000);
    countdown_clock_process(&mut c, 2_500);
    assert_eq!(c.millis, 500);
    countdown_clock_process(&mut c, 9_000);
    assert_eq!(c.millis, 0);
    assert!(!c.running);
    countdown_clock_process(&mut c, 10_000);
    assert_eq!(c.millis, 0);
    assert!(!c.running);
}

#[test]
fn processing_a_stopped_clock_changes_nothing() {
    let mut c = stopped(7_000);
    game_clock_process(&mut c, 99_999);
    assert_eq!(c.millis, 7_000);
    assert!(!c.running);
}

#[test]
fn process_init_aims_the_clock() {
    let mut c = stopped(4_000);
    clock_process_init(&mut c, 100);
    assert_eq!(c.end_instant, 4_100);
    assert!(!c.running);
}

#[test]
fn stopping_the_game_clock_drops_fractions_above_a_minute() {
    let mut c = Clock { millis: 61_234, running: true, end_instant: 0 };
    stop_game_clock(&mut c);
    assert_eq!(c.millis, 61_000);
    assert!(!c.running);
    stop_game_clock(&mut c);
    assert_eq!(c.millis, 61_000);
    let mut d = Clock { millis: 59_987, running: true, end_instant: 0 };
    stop_game_clock(&mut d);
    assert_eq!(d.millis, 59_987);
}

#[test]
fn stopping_the_countdown_keeps_its_reading() {
    let mut c = Clock { millis: 61_234, running: true, end_instant: 0 };
    stop_countdown_clock(&mut c);
    assert_eq!(c.millis, 61_234);
    assert!(!c.running);
}

#[test]
fn tickers_take_off_elapsed_time() {
    let mut c = Clock { millis: 10, running: true, end_instant: 0 };
    countdown_clock_ticker(&mut c, 1);
    assert_eq!(c.millis, 9);
    countdown_clock_ticker(&mut c, 20);
    assert_eq!(c.millis, 9);
    assert!(!c.running);
    countdown_clock_ticker(&mut c, 1);
    assert_eq!(c.millis, 9);

    let mut g = Clock { millis: 1_000, running: true, end_instant: 0 };
    game_clock_ticker(&mut g, 250, false);
    assert_eq!(g.millis, 750);
    game_clock_ticker(&mut g, 250, true);
    assert_eq!(g.millis, 750);
    game_clock_ticker(&mut g, 751, false);
    assert_eq!(g.millis, 750);
    assert!(!g.running);
}

#[test]
fn ctl_start_stop_and_toggle() {
    let mut c = stopped(61_500);
    game_clock_ctl_handler(&mut c, "start", 0);
    assert!(c.running);
    assert_eq!(c.end_instant, 61_500);
    game_clock_ctl_handler(&mut c, "toggle", 0);
    assert!(!c.running);
    assert_eq!(c.millis, 61_000);
    game_clock_ctl_handler(&mut c, "toggle", 5);
    assert!(c.running);
    assert_eq!(c.end_instant, 61_005);
    game_clock_ctl_handler(&mut c, "stop", 5);
    assert!(!c.running);
    game_clock_ctl_handler(&mut c, "bogus", 5);
    assert!(!c.running);
    assert_eq!(c.millis, 61_000);

    let mut d = stopped(61_500);
    countdown_clock_ctl_handler(&mut d, "toggle", 0);
    assert!(d.running);
    countdown_clock_ctl_handler(&mut d, "stop", 0);
    assert!(!d.running);
    assert_eq!(d.millis, 61_500);
}

#[test]
fn set_handlers_compute_readings() {
    let mut c = stopped(0);
    game_clock_set_handler(&mut c, 12, 30, 0);
    assert_eq!(c.millis, 750_000);
    game_clock_set_mins_handler(&mut c, 3, 0);
    assert_eq!(c.millis, 210_000);
    game_clock_set_secs_handler(&mut c, 5, 0);
    assert_eq!(c.millis, 185_000);

    let mut d = stopped(125_678);
    countdown_clock_set_mins_handler(&mut d, 0, 0);
    assert_eq!(d.millis, 5_000);
    countdown_clock_set_handler(&mut d, 1, 1, 0);
    assert_eq!(d.millis, 61_000);
    countdown_clock_set_secs_handler(&mut d, 59, 0);
    assert_eq!(d.millis, 119_000);
}

#[test]
fn update_handlers_move_but_never_below_zero() {
    let mut c = stopped(60_000);
    game_clock_update_handler(&mut c, 0, -30, 0);
    assert_eq!(c.millis, 30_000);
    game_clock_update_handler(&mut c, -1, 0, 0);
    assert_eq!(c.millis, 30_000);
    game_clock_update_handler(&mut c, 1, 5, 0);
    assert_eq!(c.millis, 95_000);

    let mut d = stopped(1_000);
    countdown_clock_update_handler(&mut d, 0, -1, 0);
    assert_eq!(d.millis, 0);
    countdown_clock_update_handler(&mut d, 0, -1, 0);
    assert_eq!(d.millis, 0);
}

#[test]
fn game_clock_display_formats() {
    assert_eq!(game_clock_display_handler("minutes", 125_000), "2");
    assert_eq!(game_clock_display_handler("seconds", 125_000), "5");
    assert_eq!(game_clock_display_handler("both", 65_000), "1:05");
    assert_eq!(game_clock_display_handler("both", 59_500), "0:59:50");
    assert_eq!(game_clock_display_handler("both", 60_000), "1:00:00");
    assert_eq!(game_clock_display_handler("other", 60_000), "");
}

#[test]
fn countdown_clock_display_formats() {
    assert_eq!(countdown_clock_display_handler("minutes", 600_000), "10");
    assert_eq!(countdown_clock_display_handler("seconds", 600_000), "0");
    assert_eq!(countdown_clock_display_handler("both", 9_999), "0:09");
    assert_eq!(countdown_clock_display_handler("both", 725_000), "12:05");
    assert_eq!(countdown_clock_display_handler("", 725_000), "");
}

#[test]
fn moving_a_stopped_clock_and_back_restores_it() {
    let mut c = stopped(42_000);
    game_clock_update_handler(&mut c, 2, 15, 0);
    assert_eq!(c.millis, 177_000);
    game_clock_update_handler(&mut c, -2, -15, 0);
    assert_eq!(c.millis, 42_000);
    assert!(!c.running);
}
