//! Score, down, yards-to-go and quarter updates, and the reset of a game.
use vstd::prelude::*;
use crate::clock::Clock;
use crate::state::{AppState, AppStateView, fresh_state};

verus! {

/// The value of a `u32` read as an `i32` (two's complement).
pub open spec fn i32_of(x: u32) -> int {
    if x <= 0x7fff_ffff {
        x as int
    } else {
        x - 0x1_0000_0000
    }
}

/// The value of a `u8` read as an `i8` (two's complement).
pub open spec fn i8_of(x: u8) -> int {
    if x <= 0x7f {
        x as int
    } else {
        x - 0x100
    }
}

/// Reinterprets a `u32` as an `i32`.
pub fn u32_as_i32(x: u32) -> (r: i32)
    ensures
        r == i32_of(x),
{
    if x <= 0x7fff_ffff {
        x as i32
    } else {
        ((x - 0x8000_0000) as i32) - 0x7fff_ffff - 1
    }
}

/// Reinterprets a `u8` as an `i8`.
pub fn u8_as_i8(x: u8) -> (r: i8)
    ensures
        r == i8_of(x),
{
    if x <= 0x7f {
        x as i8
    } else {
        ((x - 0x80) as i8) - 0x7f - 1
    }
}

/// The score after adding `a` points: the sum when it is not negative,
/// otherwise the score unchanged.
pub open spec fn points_after(points: u32, a: i32) -> u32 {
    if i32_of(points) + a >= 0 {
        (i32_of(points) + a) as u32
    } else {
        points
    }
}

/// Whether adding `a` to a score stays within `i32`, as the arithmetic
/// on scores requires.
pub open spec fn points_update_in_range(points: u32, a: i32) -> bool {
    i32::MIN <= i32_of(points) + a <= i32::MAX
}

fn points_update(points: u32, a: i32) -> (r: u32)
    requires
        points_update_in_range(points, a),
    ensures
        r == points_after(points, a),
{
    let p = u32_as_i32(points);
    if p + a >= 0 {
        (p + a) as u32
    } else {
        points
    }
}

/// Adds `a` (possibly negative) to the home score unless the score would
/// drop below zero.
pub fn home_points_update_handler(state: &mut AppState, a: i32)
    requires
        points_update_in_range(old(state).home_points, a),
    ensures
        final(state)@ == (AppStateView {
            home_points: points_after(old(state).home_points, a),
            ..old(state)@
        }),
{
    state.home_points = points_update(state.home_points, a);
}

/// Sets the home score.
pub fn home_points_set_handler(state: &mut AppState, a: u32)
    ensures
        final(state)@ == (AppStateView { home_points: a, ..old(state)@ }),
{
    state.home_points = a;
}

/// Adds `a` (possibly negative) to the away score unless the score would
/// drop below zero.
pub fn away_points_update_handler(state: &mut AppState, a: i32)
    requires
        points_update_in_range(old(state).away_points, a),
    ensures
        final(state)@ == (AppStateView {
            away_points: points_after(old(state).away_points, a),
            ..old(state)@
        }),
{
    state.away_points = points_update(state.away_points, a);
}

/// Sets the away score.
pub fn away_points_set_handler(state: &mut AppState, a: u32)
    ensures
        final(state)@ == (AppStateView { away_points: a, ..old(state)@ }),
{
    state.away_points = a;
}

/// Whether a down is one of the four downs.
pub open spec fn valid_down(d: int) -> bool {
    1 <= d <= 4
}

/// Whether a yards-to-go value is shown: 1 to 100 yards, 0 for hidden and
/// 101 for goal.
pub open spec fn valid_togo(y: int) -> bool {
    0 <= y <= 101
}

/// The down after moving by `y` downs: past the fourth down it wraps to the
/// first and before the first to the fourth.
pub open spec fn down_after(down: u8, y: i8) -> u8 {
    let v = i8_of(down) + y;
    if valid_down(v) {
        v as u8
    } else if v < 1 {
        4
    } else {
        1
    }
}

/// The yards to go after moving by `y`: above goal it wraps to hidden and
/// below hidden to goal.
pub open spec fn togo_after(togo: u8, y: i8) -> u8 {
    let v = i8_of(togo) + y;
    if valid_togo(v) {
        v as u8
    } else if v > 101 {
        0
    } else {
        101
    }
}

/// Whether moving a down or yards value by `y` stays within `i8`, as the
/// arithmetic on them requires.
pub open spec fn i8_update_in_range(x: u8, y: i8) -> bool {
    i8::MIN <= i8_of(x) + y <= i8::MAX
}

/// Sets the down when `d` is one of the four downs; otherwise nothing changes.
pub fn downs_set_handler(state: &mut AppState, d: u8)
    ensures
        final(state)@ == (if valid_down(d as int) {
            AppStateView { down: d, ..old(state)@ }
        } else {
            old(state)@
        }),
{
    if 1 <= d && d <= 4 {
        state.down = d;
    }
}

/// Moves the down by `y`, wrapping between the fourth and the first down.
pub fn downs_update_handler(state: &mut AppState, y: i8)
    requires
        i8_update_in_range(old(state).down, y),
    ensures
        final(state)@ == (AppStateView { down: down_after(old(state).down, y), ..old(state)@ }),
{
    let new_val = u8_as_i8(state.down) + y;
    if 1 <= new_val && new_val <= 4 {
        state.down = new_val as u8;
    } else if new_val < 1 {
        state.down = 4;
    } else {
        state.down = 1;
    }
}

/// Sets the yards to go when `y` is at most 101; otherwise nothing changes.
pub fn downs_togo_set_handler(state: &mut AppState, y: u8)
    ensures
        final(state)@ == (if valid_togo(y as int) {
            AppStateView { downs_togo: y, ..old(state)@ }
        } else {
            old(state)@
        }),
{
    if y <= 101 {
        state.downs_togo = y;
    }
}

/// Moves the yards to go by `y`, wrapping between goal and hidden.
pub fn downs_togo_update_handler(state: &mut AppState, y: i8)
    requires
        i8_update_in_range(old(state).downs_togo, y),
    ensures
        final(state)@ == (AppStateView {
            downs_togo: togo_after(old(state).downs_togo, y),
            ..old(state)@
        }),
{
    let new_val = u8_as_i8(state.downs_togo) + y;
    if 0 <= new_val && new_val <= 101 {
        state.downs_togo = new_val as u8;
    } else if new_val > 101 {
        state.downs_togo = 0;
    } else {
        state.downs_togo = 101;
    }
}

/// Sets the quarter.
pub fn quarter_set_handler(state: &mut AppState, q: u8)
    ensures
        final(state)@ == (AppStateView { quarter: q, ..old(state)@ }),
{
    state.quarter = q;
}

/// The quarter after moving by `a`: the move happens only when it lands on
/// one of the four quarters or overtime (1 to 5).
pub open spec fn quarter_after(quarter: u8, a: i8) -> u8 {
    let v = i8_of(quarter) + a;
    if 1 <= v <= 5 {
        v as u8
    } else {
        quarter
    }
}

/// Moves the quarter by `a` when the result is between 1 and 5.
pub fn quarter_update_handler(state: &mut AppState, a: i8)
    requires
        i8_update_in_range(old(state).quarter, a),
    ensures
        final(state)@ == (AppStateView { quarter: quarter_after(old(state).quarter, a), ..old(state)@ }),
{
    let v = u8_as_i8(state.quarter) + a;
    if v >= 1 && v <= 5 {
        state.quarter = v as u8;
    }
}

/// The form that sets the countdown's caption.
pub struct TextPayload {
    pub text: String,
}

/// Sets the caption of the countdown.
pub fn countdown_text_set_handler(state: &mut AppState, payload: TextPayload)
    ensures
        final(state)@ == (AppStateView { countdown_text: payload.text@, ..old(state)@ }),
{
    state.countdown_text = payload.text;
}

/// Starts a new game: the per-game state becomes that of a fresh game, both
/// clocks are stopped at zero and the sponsor roll and OCR input are off.
pub fn reset_handler(
    state: &mut AppState,
    game_clock: &mut Clock,
    countdown_clock: &mut Clock,
    show_sponsors: &mut bool,
    ocr_api: &mut bool,
)
    ensures
        final(state)@ == fresh_state(),
        *final(game_clock) == (Clock { millis: 0, running: false, ..*old(game_clock) }),
        *final(countdown_clock) == (Clock { millis: 0, running: false, ..*old(countdown_clock) }),
        !*final(show_sponsors),
        !*final(ocr_api),
{
    state.home_points = 0;
    state.home_name = String::from_str("Home");
    state.away_points = 0;
    state.away_name = String::from_str("Away");
    state.quarter = 1;
    state.preset_id = String::new();
    state.down = 1;
    state.downs_togo = 1;
    state.countdown_text = String::from_str("Countdown");
    state.show_countdown = false;
    state.show_downs = true;
    state.show_scoreboard = true;
    game_clock.millis = 0;
    game_clock.running = false;
    countdown_clock.millis = 0;
    countdown_clock.running = false;
    *show_sponsors = false;
    *ocr_api = false;
}

/// Setting or moving the down keeps it one of the four downs.
pub proof fn lemma_down_stays_valid(down: u8, d: u8, y: i8)
    requires
        valid_down(down as int),
    ensures
        valid_down(down_after(down, y) as int),
        valid_down((if valid_down(d as int) { d } else { down }) as int),
{
}

/// Setting or moving the yards to go keeps them between hidden and goal.
pub proof fn lemma_togo_stays_valid(togo: u8, t: u8, y: i8)
    requires
        valid_togo(togo as int),
    ensures
        valid_togo(togo_after(togo, y) as int),
        valid_togo((if valid_togo(t as int) { t } else { togo }) as int),
{
}

/// Moving the quarter never leaves the range 1 to 5 once inside it.
pub proof fn lemma_quarter_stays_valid(quarter: u8, a: i8)
    requires
        1 <= quarter <= 5,
    ensures
        1 <= quarter_after(quarter, a) <= 5,
{
}

/// Adding points and then taking the same points off gives the score back.
pub proof fn lemma_points_add_then_subtract(points: u32, a: i32)
    requires
        0 <= a,
        points <= i32::MAX,
        points + a <= i32::MAX,
    ensures
        points_after(points_after(points, a), (-a) as i32) == points,
{
}

} // verus!
