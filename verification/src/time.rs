//! Requests that drive the game clock and the countdown clock, and the text
//! that shows their readings.
use vstd::prelude::*;
use crate::clock::{
    Clock, instant_fits, set_clock_post, start_post, stopped_game_reading, set_game_clock,
    start_game_clock, stop_game_clock, set_countdown_clock, start_countdown_clock,
    stop_countdown_clock, process_post,
};
use crate::text::{str_equal, push_decimal, push_decimal2, decimal, decimal2};

verus! {

/// Whether a control request starts the clock: `start`, or `toggle` on a
/// stopped clock.
pub open spec fn ctl_starts(a: Seq<char>, running: bool) -> bool {
    a == "start"@ || (a == "toggle"@ && !running)
}

/// Whether a control request stops the clock: `stop`, or `toggle` on a
/// running clock.
pub open spec fn ctl_stops(a: Seq<char>, running: bool) -> bool {
    a == "stop"@ || (a == "toggle"@ && running)
}

/// Starts, stops or toggles the game clock; any other request leaves it alone.
pub fn game_clock_ctl_handler(clock: &mut Clock, a: &str, now: u64)
    requires
        ctl_starts(a@, old(clock).running) ==> instant_fits(now, old(clock).millis),
    ensures
        if ctl_starts(a@, old(clock).running) {
            start_post(*old(clock), *final(clock), now)
        } else if ctl_stops(a@, old(clock).running) {
            *final(clock) == (Clock {
                running: false,
                millis: stopped_game_reading(old(clock).millis),
                ..*old(clock)
            })
        } else {
            *final(clock) == *old(clock)
        },
{
    proof {
        reveal_strlit("start");
        reveal_strlit("stop");
        reveal_strlit("toggle");
        assert("start"@.len() == 5);
        assert("stop"@.len() == 4);
        assert("toggle"@.len() == 6);
    }
    if str_equal(a, "start") {
        start_game_clock(clock, now);
    } else if str_equal(a, "stop") {
        stop_game_clock(clock);
    } else if str_equal(a, "toggle") {
        if clock.running {
            stop_game_clock(clock);
        } else {
            start_game_clock(clock, now);
        }
    }
}

/// Starts, stops or toggles the countdown clock; any other request leaves it
/// alone.
pub fn countdown_clock_ctl_handler(clock: &mut Clock, a: &str, now: u64)
    requires
        ctl_starts(a@, old(clock).running) ==> instant_fits(now, old(clock).millis),
    ensures
        if ctl_starts(a@, old(clock).running) {
            start_post(*old(clock), *final(clock), now)
        } else if ctl_stops(a@, old(clock).running) {
            *final(clock) == (Clock { running: false, ..*old(clock) })
        } else {
            *final(clock) == *old(clock)
        },
{
    proof {
        reveal_strlit("start");
        reveal_strlit("stop");
        reveal_strlit("toggle");
        assert("start"@.len() == 5);
        assert("stop"@.len() == 4);
        assert("toggle"@.len() == 6);
    }
    if str_equal(a, "start") {
        start_countdown_clock(clock, now);
    } else if str_equal(a, "stop") {
        stop_countdown_clock(clock);
    } else if str_equal(a, "toggle") {
        if clock.running {
            stop_countdown_clock(clock);
        } else {
            start_countdown_clock(clock, now);
        }
    }
}

/// Milliseconds in `mins` minutes and `secs` seconds.
pub open spec fn clock_millis(mins: int, secs: int) -> int {
    mins * 60000 + secs * 1000
}

/// A reading with the minutes replaced by `mins`, keeping the seconds and
/// dropping the fraction of a second.
pub open spec fn with_minutes(millis: u64, mins: u64) -> int {
    millis / 1000 % 60 * 1000 + mins * 60000
}

/// A reading with the seconds replaced by `secs`, keeping the whole minutes.
pub open spec fn with_seconds(millis: u64, secs: u64) -> int {
    millis / 1000 / 60 * 60 * 1000 + secs * 1000
}

/// Whether a new reading fits in a `u64` and, on a running clock, can be
/// added to `now`.
pub open spec fn settable(clock: Clock, millis: int, now: u64) -> bool {
    0 <= millis <= u64::MAX && (clock.running ==> now + millis <= u64::MAX)
}

/// Sets the game clock to `mins` minutes and `secs` seconds.
pub fn game_clock_set_handler(clock: &mut Clock, mins: u64, secs: u64, now: u64)
    requires
        settable(*old(clock), clock_millis(mins as int, secs as int), now),
    ensures
        set_clock_post(*old(clock), *final(clock), clock_millis(mins as int, secs as int) as u64, now),
{
    assert(mins * 60 * 1000 == mins * 60000);
    set_game_clock(clock, mins * 60 * 1000 + secs * 1000, now);
}

/// Sets the minutes of the game clock.
pub fn game_clock_set_mins_handler(clock: &mut Clock, mins: u64, now: u64)
    requires
        settable(*old(clock), with_minutes(old(clock).millis, mins), now),
    ensures
        set_clock_post(*old(clock), *final(clock), with_minutes(old(clock).millis, mins) as u64, now),
{
    let millis = (clock.millis / 1000 % 60 * 1000) + mins * 60 * 1000;
    set_game_clock(clock, millis, now);
}

/// Sets the seconds of the game clock.
pub fn game_clock_set_secs_handler(clock: &mut Clock, secs: u64, now: u64)
    requires
        settable(*old(clock), with_seconds(old(clock).millis, secs), now),
    ensures
        set_clock_post(*old(clock), *final(clock), with_seconds(old(clock).millis, secs) as u64, now),
{
    assert(clock.millis / 1000 / 60 * 60 * 1000 <= clock.millis) by (nonlinear_arith);
    let millis = (clock.millis / 1000 / 60 * 60 * 1000) + secs * 1000;
    set_game_clock(clock, millis, now);
}

/// Whether moving a reading by `mins` minutes and `secs` seconds stays
/// within `i64`, as the signed arithmetic on readings requires.
pub open spec fn update_in_range(millis: u64, mins: i64, secs: i64) -> bool {
    &&& i64::MIN <= mins * 60000 <= i64::MAX
    &&& i64::MIN <= secs * 1000 <= i64::MAX
    &&& i64::MIN <= clock_millis(mins as int, secs as int) <= i64::MAX
    &&& millis <= i64::MAX
    &&& i64::MIN <= millis + clock_millis(mins as int, secs as int) <= i64::MAX
}

/// Moves a clock by `mins` minutes and `secs` seconds unless that would
/// take it below zero.
pub open spec fn update_post(old: Clock, new: Clock, mins: i64, secs: i64, now: u64) -> bool {
    let t = old.millis + clock_millis(mins as int, secs as int);
    if t >= 0 {
        set_clock_post(old, new, t as u64, now)
    } else {
        new == old
    }
}

fn clock_update(clock: &mut Clock, mins: i64, secs: i64, now: u64, game: bool)
    requires
        update_in_range(old(clock).millis, mins, secs),
        settable(*old(clock), old(clock).millis + clock_millis(mins as int, secs as int), now)
            || old(clock).millis + clock_millis(mins as int, secs as int) < 0,
    ensures
        update_post(*old(clock), *final(clock), mins, secs, now),
{
    assert(i64::MIN <= mins * 60 <= i64::MAX) by (nonlinear_arith)
        requires
            i64::MIN <= mins * 60000 <= i64::MAX,
    ;
    let time_diff = mins * 60 * 1000 + secs * 1000;
    let current = clock.millis as i64;
    if current + time_diff >= 0 {
        let millis = (current + time_diff) as u64;
        if game {
            set_game_clock(clock, millis, now);
        } else {
            set_countdown_clock(clock, millis, now);
        }
    }
}

/// Setting the minutes of a reading gives a reading with those minutes and
/// the old seconds, on the whole second.
pub proof fn lemma_set_minutes_keeps_seconds(millis: u64, mins: u64)
    requires
        with_minutes(millis, mins) <= u64::MAX,
    ensures
        minutes_of(with_minutes(millis, mins) as u64) == mins,
        seconds_of(with_minutes(millis, mins) as u64) == seconds_of(millis),
        (with_minutes(millis, mins) as u64) % 1000 == 0,
{
    let sec = millis / 1000 % 60;
    let t = sec * 1000 + mins * 60000;
    assert(t == with_minutes(millis, mins));
    assert(0 <= sec < 60);
    assert(t / 1000 == sec + mins * 60 && t % 1000 == 0) by (nonlinear_arith)
        requires
            t == sec * 1000 + mins * 60000,
            0 <= sec < 60,
            mins >= 0,
    ;
    let q = sec + mins * 60;
    assert(q / 60 == mins && q % 60 == sec) by (nonlinear_arith)
        requires
            q == sec + mins * 60,
            0 <= sec < 60,
            mins >= 0,
    ;
}

/// Setting the seconds (below a minute) of a reading gives a reading with
/// those seconds and the old minutes, on the whole second.
pub proof fn lemma_set_seconds_keeps_minutes(millis: u64, secs: u64)
    requires
        secs < 60,
        with_seconds(millis, secs) <= u64::MAX,
    ensures
        minutes_of(with_seconds(millis, secs) as u64) == minutes_of(millis),
        seconds_of(with_seconds(millis, secs) as u64) == secs,
        (with_seconds(millis, secs) as u64) % 1000 == 0,
{
    let m = millis / 1000 / 60;
    let t = m * 60 * 1000 + secs * 1000;
    assert(t == with_seconds(millis, secs));
    assert(t / 1000 == m * 60 + secs && t % 1000 == 0) by (nonlinear_arith)
        requires
            t == m * 60 * 1000 + secs * 1000,
            0 <= secs < 60,
            m >= 0,
    ;
    let q = m * 60 + secs;
    assert(q / 60 == m && q % 60 == secs) by (nonlinear_arith)
        requires
            q == m * 60 + secs,
            0 <= secs < 60,
            m >= 0,
    ;
}

/// Moving a running clock by some minutes and seconds and reading it at the
/// same instant gives its reading moved by exactly that much (when the move
/// keeps it at or above zero): the clock keeps running from the new reading,
/// and stops only when the new reading is zero.
pub proof fn lemma_update_then_read(
    c: Clock,
    c1: Clock,
    c2: Clock,
    mins: i64,
    secs: i64,
    now: u64,
)
    requires
        c.running,
        0 <= c.millis + clock_millis(mins as int, secs as int),
        now + c.millis + clock_millis(mins as int, secs as int) <= u64::MAX,
        update_post(c, c1, mins, secs, now),
        process_post(c1, c2, now),
    ensures
        c2.millis == c.millis + mins * 60000 + secs * 1000,
        c2.running == (c.millis + mins * 60000 + secs * 1000 != 0),
{
}

/// Moving a stopped clock by some minutes and seconds and then back by the
/// same amount gives the clock back, when the first move keeps it at or above
/// zero.
pub proof fn lemma_update_then_undo(
    c: Clock,
    c1: Clock,
    c2: Clock,
    mins: i64,
    secs: i64,
    back_mins: i64,
    back_secs: i64,
    now: u64,
)
    requires
        !c.running,
        back_mins == -mins,
        back_secs == -secs,
        0 <= c.millis + clock_millis(mins as int, secs as int) <= u64::MAX,
        update_post(c, c1, mins, secs, now),
        update_post(c1, c2, back_mins, back_secs, now),
    ensures
        c2 == c,
{
}

/// Moves the game clock by `mins` minutes and `secs` seconds (either may be
/// negative) unless that would take it below zero.
pub fn game_clock_update_handler(clock: &mut Clock, mins: i64, secs: i64, now: u64)
    requires
        update_in_range(old(clock).millis, mins, secs),
        settable(*old(clock), old(clock).millis + clock_millis(mins as int, secs as int), now)
            || old(clock).millis + clock_millis(mins as int, secs as int) < 0,
    ensures
        update_post(*old(clock), *final(clock), mins, secs, now),
{
    clock_update(clock, mins, secs, now, true);
}

/// Sets the countdown clock to `mins` minutes and `secs` seconds.
pub fn countdown_clock_set_handler(clock: &mut Clock, mins: u64, secs: u64, now: u64)
    requires
        settable(*old(clock), clock_millis(mins as int, secs as int), now),
    ensures
        set_clock_post(*old(clock), *final(clock), clock_millis(mins as int, secs as int) as u64, now),
{
    assert(mins * 60 * 1000 == mins * 60000);
    set_countdown_clock(clock, mins * 60 * 1000 + secs * 1000, now);
}

/// Sets the minutes of the countdown clock.
pub fn countdown_clock_set_mins_handler(clock: &mut Clock, mins: u64, now: u64)
    requires
        settable(*old(clock), with_minutes(old(clock).millis, mins), now),
    ensures
        set_clock_post(*old(clock), *final(clock), with_minutes(old(clock).millis, mins) as u64, now),
{
    let millis = (clock.millis / 1000 % 60 * 1000) + mins * 60 * 1000;
    set_countdown_clock(clock, millis, now);
}

/// Sets the seconds of the countdown clock.
pub fn countdown_clock_set_secs_handler(clock: &mut Clock, secs: u64, now: u64)
    requires
        settable(*old(clock), with_seconds(old(clock).millis, secs), now),
    ensures
        set_clock_post(*old(clock), *final(clock), with_seconds(old(clock).millis, secs) as u64, now),
{
    assert(clock.millis / 1000 / 60 * 60 * 1000 <= clock.millis) by (nonlinear_arith);
    let millis = (clock.millis / 1000 / 60 * 60 * 1000) + secs * 1000;
    set_countdown_clock(clock, millis, now);
}

/// Moves the countdown clock by `mins` minutes and `secs` seconds (either
/// may be negative) unless that would take it below zero.
pub fn countdown_clock_update_handler(clock: &mut Clock, mins: i64, secs: i64, now: u64)
    requires
        update_in_range(old(clock).millis, mins, secs),
        settable(*old(clock), old(clock).millis + clock_millis(mins as int, secs as int), now)
            || old(clock).millis + clock_millis(mins as int, secs as int) < 0,
    ensures
        update_post(*old(clock), *final(clock), mins, secs, now),
{
    clock_update(clock, mins, secs, now, false);
}

/// Whole minutes of a reading.
pub open spec fn minutes_of(millis: u64) -> nat {
    (millis / 1000 / 60) as nat
}

/// Seconds within the minute of a reading.
pub open spec fn seconds_of(millis: u64) -> nat {
    (millis / 1000 % 60) as nat
}

/// Hundredths within the second of a reading.
pub open spec fn hundredths_of(millis: u64) -> nat {
    (millis / 10 % 100) as nat
}

/// `m:ss`.
pub open spec fn minutes_seconds(millis: u64) -> Seq<char> {
    decimal(minutes_of(millis)) + ":"@ + decimal2(seconds_of(millis))
}

/// `m:ss:hh`.
pub open spec fn minutes_seconds_hundredths(millis: u64) -> Seq<char> {
    minutes_seconds(millis) + ":"@ + decimal2(hundredths_of(millis))
}

/// The game clock as the display shows it: `minutes`, `seconds`, or `both`
/// (`m:ss`, or `m:ss:hh` up to one minute); empty for any other request.
pub open spec fn game_clock_text(o: Seq<char>, millis: u64) -> Seq<char> {
    if o == "minutes"@ {
        decimal(minutes_of(millis))
    } else if o == "seconds"@ {
        decimal(seconds_of(millis))
    } else if o == "both"@ {
        if millis > 60000 {
            minutes_seconds(millis)
        } else {
            minutes_seconds_hundredths(millis)
        }
    } else {
        Seq::empty()
    }
}

/// The countdown clock as the display shows it: `minutes`, `seconds`, or
/// `both` (`m:ss`); empty for any other request.
pub open spec fn countdown_clock_text(o: Seq<char>, millis: u64) -> Seq<char> {
    if o == "minutes"@ {
        decimal(minutes_of(millis))
    } else if o == "seconds"@ {
        decimal(seconds_of(millis))
    } else if o == "both"@ {
        minutes_seconds(millis)
    } else {
        Seq::empty()
    }
}

/// Appends `m:ss` of a reading.
pub fn push_minutes_seconds(s: &mut String, millis: u64)
    ensures
        final(s)@ == old(s)@ + minutes_seconds(millis),
{
    push_decimal(s, millis / 1000 / 60);
    s.append(":");
    push_decimal2(s, millis / 1000 % 60);
    proof {
        assert(final(s)@ =~= old(s)@ + minutes_seconds(millis));
    }
}

/// Appends `m:ss:hh` of a reading.
pub fn push_minutes_seconds_hundredths(s: &mut String, millis: u64)
    ensures
        final(s)@ == old(s)@ + minutes_seconds_hundredths(millis),
{
    push_minutes_seconds(s, millis);
    s.append(":");
    push_decimal2(s, millis / 10 % 100);
    proof {
        assert(final(s)@ =~= old(s)@ + minutes_seconds_hundredths(millis));
    }
}

/// The text of the game clock display.
pub fn game_clock_display_handler(o: &str, millis: u64) -> (r: String)
    ensures
        r@ == game_clock_text(o@, millis),
{
    proof {
        reveal_strlit("minutes");
        reveal_strlit("seconds");
        reveal_strlit("both");
    }
    let mut s = String::new();
    if str_equal(o, "minutes") {
        push_decimal(&mut s, millis / 1000 / 60);
    } else if str_equal(o, "seconds") {
        push_decimal(&mut s, millis / 1000 % 60);
    } else if str_equal(o, "both") {
        if millis > 1000 * 60 {
            push_minutes_seconds(&mut s, millis);
        } else {
            push_minutes_seconds_hundredths(&mut s, millis);
        }
    }
    proof {
        assert(s@ =~= game_clock_text(o@, millis));
    }
    s
}

/// The text of the countdown clock display.
pub fn countdown_clock_display_handler(o: &str, millis: u64) -> (r: String)
    ensures
        r@ == countdown_clock_text(o@, millis),
{
    proof {
        reveal_strlit("minutes");
        reveal_strlit("seconds");
        reveal_strlit("both");
    }
    let mut s = String::new();
    if str_equal(o, "minutes") {
        push_decimal(&mut s, millis / 1000 / 60);
    } else if str_equal(o, "seconds") {
        push_decimal(&mut s, millis / 1000 % 60);
    } else if str_equal(o, "both") {
        push_minutes_seconds(&mut s, millis);
    }
    proof {
        assert(s@ =~= countdown_clock_text(o@, millis));
    }
    s
}

} // verus!
