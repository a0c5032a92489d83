//! The game clock and the countdown clock.
//!
//! A clock holds its reading in milliseconds. While it runs, the reading is
//! derived from the instant at which it will reach zero; instants are
//! milliseconds on a monotonic clock that the caller reads.
use vstd::prelude::*;


verus! {

pub struct Clock {
    /// The reading, in milliseconds.
    pub millis: u64,
    /// Whether the clock is counting down.
    pub running: bool,
    /// While running: the instant, in milliseconds, at which it reaches zero.
    pub end_instant: u64,
}

/// A clock at zero that is not running.
pub fn new_clock() -> (c: Clock)
    ensures
        c.millis == 0,
        !c.running,
        c.end_instant == 0,
{
    Clock { millis: 0, running: false, end_instant: 0 }
}

/// Whether `now + millis` fits in a `u64`, as the instant arithmetic requires.
pub open spec fn instant_fits(now: u64, millis: u64) -> bool {
    now + millis <= u64::MAX
}

/// Sets the reading. A running clock is re-aimed to reach zero `millis`
/// from `now`; a stopped clock shows `millis` at once.
pub open spec fn set_clock_post(old: Clock, new: Clock, millis: u64, now: u64) -> bool {
    if old.running {
        new == Clock { end_instant: (now + millis) as u64, ..old }
    } else {
        new == Clock { millis, ..old }
    }
}

fn set_clock(clock: &mut Clock, millis: u64, now: u64)
    requires
        old(clock).running ==> instant_fits(now, millis),
    ensures
        set_clock_post(*old(clock), *final(clock), millis, now),
{
    if clock.running {
        clock.end_instant = now + millis;
    } else {
        clock.millis = millis;
    }
}

/// Aims the clock to reach zero `millis` milliseconds after `now`, without
/// starting or stopping it (what the clock loop does when it begins).
pub fn clock_process_init(clock: &mut Clock, now: u64)
    requires
        instant_fits(now, old(clock).millis),
    ensures
        *final(clock) == (Clock { end_instant: (now + old(clock).millis) as u64, ..*old(clock) }),
{
    clock.end_instant = now + clock.millis;
}

/// Starts the clock: it will reach zero its reading after `now`.
pub open spec fn start_post(old: Clock, new: Clock, now: u64) -> bool {
    new == Clock { running: true, end_instant: (now + old.millis) as u64, ..old }
}

fn start_clock(clock: &mut Clock, now: u64)
    requires
        instant_fits(now, old(clock).millis),
    ensures
        start_post(*old(clock), *final(clock), now),
{
    clock.end_instant = now + clock.millis;
    clock.running = true;
}

/// The reading of a running clock at `now`: the time left until its end
/// instant, zero once that has passed.
pub open spec fn remaining(end_instant: u64, now: u64) -> u64 {
    if end_instant > now {
        (end_instant - now) as u64
    } else {
        0
    }
}

/// One pass of the clock loop: a running clock shows the time left and
/// stops when none is left; a stopped clock is left alone.
pub open spec fn process_post(old: Clock, new: Clock, now: u64) -> bool {
    if old.running {
        let t = remaining(old.end_instant, now);
        new == Clock { millis: t, running: t != 0, ..old }
    } else {
        new == old
    }
}

fn clock_process(clock: &mut Clock, now: u64)
    ensures
        process_post(*old(clock), *final(clock), now),
{
    if clock.running {
        let new_time = if clock.end_instant > now {
            clock.end_instant - now
        } else {
            0
        };
        if new_time == 0 {
            clock.running = false;
        }
        clock.millis = new_time;
    }
}

/// Sets the game clock's reading (see [`set_clock_post`]).
pub fn set_game_clock(clock: &mut Clock, millis: u64, now: u64)
    requires
        old(clock).running ==> instant_fits(now, millis),
    ensures
        set_clock_post(*old(clock), *final(clock), millis, now),
{
    set_clock(clock, millis, now);
}

/// Starts the game clock.
pub fn start_game_clock(clock: &mut Clock, now: u64)
    requires
        instant_fits(now, old(clock).millis),
    ensures
        start_post(*old(clock), *final(clock), now),
{
    start_clock(clock, now);
}

/// The game clock's reading after it is stopped: from one minute up the
/// reading is cut down to whole seconds; below a minute it keeps its
/// hundredths.
pub open spec fn stopped_game_reading(millis: u64) -> u64 {
    if millis >= 60_000 {
        (millis / 1000 * 1000) as u64
    } else {
        millis
    }
}

/// Stops the game clock.
pub fn stop_game_clock(clock: &mut Clock)
    ensures
        *final(clock) == (Clock {
            running: false,
            millis: stopped_game_reading(old(clock).millis),
            ..*old(clock)
        }),
{
    clock.running = false;
    if clock.millis >= 1000 * 60 {
        clock.millis = clock.millis / 1000 * 1000;
    }
}

/// One pass of the game clock loop (see [`process_post`]).
pub fn game_clock_process(clock: &mut Clock, now: u64)
    ensures
        process_post(*old(clock), *final(clock), now),
{
    clock_process(clock, now);
}

/// Sets the countdown clock's reading (see [`set_clock_post`]).
pub fn set_countdown_clock(clock: &mut Clock, millis: u64, now: u64)
    requires
        old(clock).running ==> instant_fits(now, millis),
    ensures
        set_clock_post(*old(clock), *final(clock), millis, now),
{
    set_clock(clock, millis, now);
}

/// Starts the countdown clock.
pub fn start_countdown_clock(clock: &mut Clock, now: u64)
    requires
        instant_fits(now, old(clock).millis),
    ensures
        start_post(*old(clock), *final(clock), now),
{
    start_clock(clock, now);
}

/// Stops the countdown clock; its reading is kept.
pub fn stop_countdown_clock(clock: &mut Clock)
    ensures
        *final(clock) == (Clock { running: false, ..*old(clock) }),
{
    clock.running = false;
}

/// One pass of the countdown clock loop (see [`process_post`]).
pub fn countdown_clock_process(clock: &mut Clock, now: u64)
    ensures
        process_post(*old(clock), *final(clock), now),
{
    clock_process(clock, now);
}

/// One tick of a clock that counts down by elapsed time: the elapsed time is
/// taken off while enough is left; otherwise the clock stops where it is.
pub open spec fn tick_post(old: Clock, new: Clock, elapsed: u64) -> bool {
    if old.millis >= elapsed {
        new == Clock { millis: (old.millis - elapsed) as u64, ..old }
    } else {
        new == Clock { running: false, ..old }
    }
}

/// Whether a reading and an elapsed time both fit in an `isize`, as the
/// tickers' signed arithmetic requires.
pub open spec fn tick_in_range(millis: u64, elapsed: u64) -> bool {
    millis <= isize::MAX && elapsed <= isize::MAX
}

/// One tick of the countdown clock after `elapsed_secs` seconds: while it
/// runs the seconds are taken off its reading (see [`tick_post`]).
pub fn countdown_clock_ticker(clock: &mut Clock, elapsed_secs: u64)
    requires
        tick_in_range(old(clock).millis, elapsed_secs),
    ensures
        if old(clock).running {
            tick_post(*old(clock), *final(clock), elapsed_secs)
        } else {
            *final(clock) == *old(clock)
        },
{
    if clock.running {
        if clock.millis >= elapsed_secs {
            clock.millis = clock.millis - elapsed_secs;
        } else {
            clock.running = false;
        }
    }
}

/// One tick of the game clock: while it runs and the OCR input is off, the
/// tick of [`tick_post`]; otherwise nothing changes.
pub open spec fn game_tick_post(old: Clock, new: Clock, elapsed: u64, ocr_api: bool) -> bool {
    if old.running && !ocr_api {
        tick_post(old, new, elapsed)
    } else {
        new == old
    }
}

/// One tick of the game clock after `elapsed_millis` milliseconds: while it
/// runs and the OCR input is off, the time is taken off its reading (see
/// [`tick_post`]).
pub fn game_clock_ticker(clock: &mut Clock, elapsed_millis: u64, ocr_api: bool)
    requires
        tick_in_range(old(clock).millis, elapsed_millis),
    ensures
        game_tick_post(*old(clock), *final(clock), elapsed_millis, ocr_api),
{
    if clock.running && !ocr_api {
        if clock.millis >= elapsed_millis {
            clock.millis = clock.millis - elapsed_millis;
        } else {
            clock.running = false;
        }
    }
}


/// Setting a clock and reading it at the same instant gives back the value
/// that was set, whether the clock runs or not.
pub proof fn lemma_set_then_read(c: Clock, c1: Clock, c2: Clock, millis: u64, now: u64)
    requires
        c.running ==> instant_fits(now, millis),
        set_clock_post(c, c1, millis, now),
        process_post(c1, c2, now),
    ensures
        c2.millis == millis,
{
}

/// Starting a clock and reading it at the same instant keeps its reading.
pub proof fn lemma_start_then_read(c: Clock, c1: Clock, c2: Clock, now: u64)
    requires
        instant_fits(now, c.millis),
        start_post(c, c1, now),
        process_post(c1, c2, now),
    ensures
        c2.millis == c.millis,
        c2.running == (c.millis != 0),
{
}

/// A running clock never goes up: reading it at a later instant gives at
/// most the earlier reading, and a clock that has stopped at zero stays at
/// zero.
pub proof fn lemma_clock_counts_down(c: Clock, c1: Clock, c2: Clock, now1: u64, now2: u64)
    requires
        c.running,
        now1 <= now2,
        process_post(c, c1, now1),
        process_post(c1, c2, now2),
    ensures
        c2.millis <= c1.millis,
        !c1.running ==> c1.millis == 0 && c2 == c1,
{
}

/// Stopping the game clock twice is the same as stopping it once.
pub proof fn lemma_stop_game_idempotent(millis: u64)
    ensures
        stopped_game_reading(stopped_game_reading(millis)) == stopped_game_reading(millis),
{
    if millis >= 60_000 {
        let r = millis / 1000 * 1000;
        assert(r >= 60_000);
        assert(r / 1000 * 1000 == r) by (nonlinear_arith)
            requires
                r == millis / 1000 * 1000,
        ;
    }
}

/// A tick of the game clock takes the elapsed time off a running clock when
/// enough is left and otherwise stops it where it is; with the clock stopped
/// or the OCR input on it changes nothing. Either way the reading never goes
/// up.
pub proof fn lemma_game_tick(c: Clock, c1: Clock, elapsed: u64, ocr_api: bool)
    requires
        game_tick_post(c, c1, elapsed, ocr_api),
    ensures
        c1.millis <= c.millis,
        c.running && !ocr_api && c.millis >= elapsed ==> c1.millis == c.millis - elapsed
            && c1.running,
        c.running && !ocr_api && c.millis < elapsed ==> c1.millis == c.millis && !c1.running,
        !(c.running && !ocr_api) ==> c1 == c,
{
}

/// A tick never raises a clock's reading.
pub proof fn lemma_tick_counts_down(c: Clock, c1: Clock, elapsed: u64)
    requires
        tick_post(c, c1, elapsed),
    ensures
        c1.millis <= c.millis,
{
}

} // verus!
