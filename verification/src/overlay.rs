//! The messages that the dashboard and the overlay receive over their
//! websockets.
use vstd::prelude::*;
use crate::state::{AppState, AppStateView};
use crate::display::{ordinal, ordinal_text, togo_text, push_togo, quarter_text, quarter_display_handler, down_and_togo, push_down_and_togo};
use crate::time::{minutes_of, seconds_of, minutes_seconds, minutes_seconds_hundredths, push_minutes_seconds, push_minutes_seconds_hundredths};
use crate::text::{decimal, decimal2, push_decimal, push_decimal2};
use crate::popups::{popups_html, push_popups_html, HOME_POPUP_OPEN, AWAY_POPUP_OPEN};

verus! {

pub const DASH_0: &'static str = "\n            <div id=\"home-counter\" hx-swap-oob=\"innerHTML\">";

pub const DASH_1: &'static str = "</div>\n            <div id=\"away-counter\" hx-swap-oob=\"innerHTML\">";

pub const DASH_2: &'static str = "</div>\n            <div id=\"clock-counter-minutes\" hx-swap-oob=\"innerHTML\">";

pub const DASH_3: &'static str = "</div>\n            <div id=\"clock-counter-seconds\" hx-swap-oob=\"innerHTML\">";

pub const DASH_4: &'static str = "</div>\n            <div id=\"countdown-counter-minutes\" hx-swap-oob=\"innerHTML\">";

pub const DASH_5: &'static str = "</div>\n            <div id=\"countdown-counter-seconds\" hx-swap-oob=\"innerHTML\">";

pub const DASH_6: &'static str = "</div>\n            <div id=\"downs-counter\" hx-swap-oob=\"innerHTML\">";

pub const DASH_7: &'static str = "</div>\n            <div id=\"togo-counter\" hx-swap-oob=\"innerHTML\">";

pub const DASH_8: &'static str = "</div>\n            <div id=\"quarter-counter\" hx-swap-oob=\"innerHTML\">";

pub const DASH_9: &'static str = "</div>\n            <div id=\"uptime-value\" hx-swap-oob=\"innerHTML\">";

pub const DASH_10: &'static str = "</div>\n            <div id=\"backend-css-index\" hx-swap-oob=\"innerHTML\">";

pub const DASH_11: &'static str = "</div>\n            ";

pub const DASH_STYLE_OPEN: &'static str = "\n            <style>\n                ";

pub const DASH_STYLE_CLOSE: &'static str = "\n            </style>";

pub const DASH_HIDE_DOWNS: &'static str = ".downs { \n                        display: none; \n                    }";

/// The uptime as `hh:mm:ss` (hours may run past two digits).
pub open spec fn uptime_text(secs: u64) -> Seq<char> {
    decimal2((secs / 3600) as nat) + ":"@ + decimal2(((secs % 3600) / 60) as nat) + ":"@ + decimal2(
        (secs % 60) as nat,
    )
}

/// The dashboard's style rules: the downs are hidden when they are off.
pub open spec fn dashboard_style(show_downs: bool) -> Seq<char> {
    DASH_STYLE_OPEN@ + (if !show_downs { DASH_HIDE_DOWNS@ } else { Seq::empty() }) + DASH_STYLE_CLOSE@
}

/// The dashboard's periodic update: scores, both clocks as minutes and
/// seconds, down, yards to go, quarter, uptime and style rules.
pub open spec fn dashboard_message(st: AppStateView, game: u64, countdown: u64, uptime: u64) -> Seq<
    char,
> {
    DASH_0@ + decimal(st.home_points as nat) + DASH_1@ + decimal(st.away_points as nat) + DASH_2@
        + decimal(minutes_of(game)) + DASH_3@ + decimal2(seconds_of(game)) + DASH_4@ + decimal(
        minutes_of(countdown),
    ) + DASH_5@ + decimal2(seconds_of(countdown)) + DASH_6@ + ordinal(st.down) + DASH_7@
        + togo_text(st.downs_togo) + DASH_8@ + quarter_text(st.quarter) + DASH_9@ + uptime_text(
        uptime,
    ) + DASH_10@ + dashboard_style(st.show_downs) + DASH_11@
}

/// Appends the uptime (see [`uptime_text`]).
pub fn push_uptime(s: &mut String, secs: u64)
    ensures
        final(s)@ == old(s)@ + uptime_text(secs),
{
    push_decimal2(s, secs / 3600);
    s.append(":");
    push_decimal2(s, (secs % 3600) / 60);
    s.append(":");
    push_decimal2(s, secs % 60);
    proof {
        assert(final(s)@ =~= old(s)@ + uptime_text(secs));
    }
}

/// The dashboard's periodic update.
pub fn dashboard_websocket_handler(state: &AppState, game_clock: u64, countdown_clock: u64, uptime_secs: u64) -> (r: String)
    ensures
        r@ == dashboard_message(state@, game_clock, countdown_clock, uptime_secs),
{
    let mut s = String::new();
    s.append(DASH_0);
    push_decimal(&mut s, state.home_points as u64);
    s.append(DASH_1);
    push_decimal(&mut s, state.away_points as u64);
    s.append(DASH_2);
    push_decimal(&mut s, game_clock / 1000 / 60);
    s.append(DASH_3);
    push_decimal2(&mut s, game_clock / 1000 % 60);
    s.append(DASH_4);
    push_decimal(&mut s, countdown_clock / 1000 / 60);
    s.append(DASH_5);
    push_decimal2(&mut s, countdown_clock / 1000 % 60);
    s.append(DASH_6);
    s.append(ordinal_text(state.down));
    s.append(DASH_7);
    push_togo(&mut s, state.downs_togo);
    s.append(DASH_8);
    s.append(quarter_display_handler(state));
    s.append(DASH_9);
    push_uptime(&mut s, uptime_secs);
    s.append(DASH_10);
    s.append(DASH_STYLE_OPEN);
    if !state.show_downs {
        s.append(DASH_HIDE_DOWNS);
    }
    s.append(DASH_STYLE_CLOSE);
    s.append(DASH_11);
    proof {
        assert(s@ =~= dashboard_message(state@, game_clock, countdown_clock, uptime_secs));
    }
    s
}

pub const OVERLAY_0: &'static str = "\n            <div id=\"ol-score\" hx-swap-oob=\"innerHTML\">";

pub const OVERLAY_1: &'static str = "</div>\n            <div id=\"ol-time\" hx-swap-oob=\"innerHTML\">";

pub const OVERLAY_2: &'static str = "</div>\n            <div id=\"ol-down\" hx-swap-oob=\"innerHTML\">";

pub const OVERLAY_3: &'static str = "</div>\n            <div id=\"countdown-box\" hx-swap-oob=\"innerHTML\">";

pub const OVERLAY_4: &'static str = "</div>\n            <div id=\"sponsor-roll\" hx-swap-oob=\"innerHTML\">";

pub const OVERLAY_5: &'static str = "</div>\n            <div id=\"backend-css-overlay\" hx-swap-oob=\"innerHTML\">";

pub const OVERLAY_6: &'static str = "</div>\n            <div id=\"ol-popupContainer\" hx-swap-oob=\"innerHTML\">";

pub const OVERLAY_7: &'static str = "</div>\n            ";

pub const COUNTDOWN_0: &'static str = "<div id=\"ol-countdown\" class=\"countdown-container\" style=\"opacity: ";

pub const COUNTDOWN_1: &'static str = ";\"><h2 class=\"countdown-title\">";

pub const COUNTDOWN_2: &'static str = ":</h2>";

pub const SPONSOR_PARENT_OPEN: &'static str = "<div class=\"ol-sponsor-parent\">";

pub const OVERLAY_STYLE_0: &'static str = "\n                <style>\n                    ";

pub const OVERLAY_STYLE_1: &'static str = "\n                    ";

pub const OVERLAY_STYLE_2: &'static str = "\n                </style>";

pub const OVERLAY_HIDE_DOWNS: &'static str = "\n                    .ol-down-togo-box { \n                        display: none; \n                    }";

pub const OVERLAY_HIDE_SCOREBOARD: &'static str = ".ol-parent-container { display: none; }";

/// The overlay's game time: `m:ss - <quarter>` from one minute up, and
/// `m:ss:hh - <quarter>` below a minute.
pub open spec fn overlay_time(game: u64, quarter: u8) -> Seq<char> {
    (if game >= 60000 {
        minutes_seconds(game)
    } else {
        minutes_seconds_hundredths(game)
    }) + " - "@ + quarter_text(quarter)
}

/// The countdown box: shown only when the countdown is on, with its
/// opacity, caption and `m:ss` reading.
pub open spec fn countdown_box(st: AppStateView, countdown: u64, opacity: Seq<char>) -> Seq<char> {
    if st.show_countdown {
        COUNTDOWN_0@ + opacity + COUNTDOWN_1@ + st.countdown_text + COUNTDOWN_2@ + minutes_seconds(
            countdown,
        ) + "</div>"@
    } else {
        Seq::empty()
    }
}

/// The sponsor roll: the current sponsor's tag while sponsors are shown and
/// there are any.
pub open spec fn sponsor_roll(tags: Seq<String>, show_sponsors: bool, idx: usize) -> Seq<char> {
    if show_sponsors && tags.len() > 0 {
        SPONSOR_PARENT_OPEN@ + tags[idx as int]@ + "</div>"@
    } else {
        Seq::empty()
    }
}

/// The overlay's style rules: the downs box and the scoreboard are hidden
/// when they are off.
pub open spec fn overlay_style(show_downs: bool, show_scoreboard: bool) -> Seq<char> {
    OVERLAY_STYLE_0@ + (if !show_downs { OVERLAY_HIDE_DOWNS@ } else { Seq::empty() })
        + OVERLAY_STYLE_1@ + (if !show_scoreboard { OVERLAY_HIDE_SCOREBOARD@ } else { Seq::empty() })
        + OVERLAY_STYLE_2@
}

/// What the overlay is told about the sponsors and popups.
pub struct OverlayExtras<'a> {
    pub countdown_opacity: &'a str,
    pub sponsor_tags: &'a Vec<String>,
    pub show_sponsors: bool,
    pub sponsor_idx: usize,
    pub popups_home: &'a Vec<(String, u64)>,
    pub popups_away: &'a Vec<(String, u64)>,
}

/// The overlay's periodic update: score, time and quarter, down and yards,
/// countdown box, sponsor roll, style rules and popups.
pub open spec fn overlay_message(st: AppStateView, game: u64, countdown: u64, x: OverlayExtras) -> Seq<
    char,
> {
    OVERLAY_0@ + decimal(st.home_points as nat) + "-"@ + decimal(st.away_points as nat) + OVERLAY_1@
        + overlay_time(game, st.quarter) + OVERLAY_2@ + down_and_togo(st.down, st.downs_togo)
        + OVERLAY_3@ + countdown_box(st, countdown, x.countdown_opacity@) + OVERLAY_4@ + sponsor_roll(
        x.sponsor_tags@,
        x.show_sponsors,
        x.sponsor_idx,
    ) + OVERLAY_5@ + overlay_style(st.show_downs, st.show_scoreboard) + OVERLAY_6@ + popups_html(
        x.popups_home@,
        x.popups_away@,
    ) + OVERLAY_7@
}

/// Whether the sponsor index points at a tag whenever the roll is shown, as
/// indexing the tags requires.
pub open spec fn roll_in_range(x: OverlayExtras) -> bool {
    x.show_sponsors && x.sponsor_tags@.len() > 0 ==> x.sponsor_idx < x.sponsor_tags@.len()
}

fn push_overlay_time(s: &mut String, game: u64, state: &AppState)
    ensures
        final(s)@ == old(s)@ + overlay_time(game, state.quarter),
{
    if game >= 1000 * 60 {
        push_minutes_seconds(s, game);
    } else {
        push_minutes_seconds_hundredths(s, game);
    }
    s.append(" - ");
    s.append(quarter_display_handler(state));
    proof {
        assert(final(s)@ =~= old(s)@ + overlay_time(game, state.quarter));
    }
}

fn push_countdown_box(s: &mut String, state: &AppState, countdown: u64, opacity: &str)
    ensures
        final(s)@ == old(s)@ + countdown_box(state@, countdown, opacity@),
{
    if state.show_countdown {
        s.append(COUNTDOWN_0);
        s.append(opacity);
        s.append(COUNTDOWN_1);
        s.append(state.countdown_text.as_str());
        s.append(COUNTDOWN_2);
        push_minutes_seconds(s, countdown);
        s.append("</div>");
    }
    proof {
        assert(final(s)@ =~= old(s)@ + countdown_box(state@, countdown, opacity@));
    }
}

fn push_overlay_style(s: &mut String, state: &AppState)
    ensures
        final(s)@ == old(s)@ + overlay_style(state.show_downs, state.show_scoreboard),
{
    s.append(OVERLAY_STYLE_0);
    if !state.show_downs {
        s.append(OVERLAY_HIDE_DOWNS);
    }
    s.append(OVERLAY_STYLE_1);
    if !state.show_scoreboard {
        s.append(OVERLAY_HIDE_SCOREBOARD);
    }
    s.append(OVERLAY_STYLE_2);
    proof {
        assert(final(s)@ =~= old(s)@ + overlay_style(state.show_downs, state.show_scoreboard));
    }
}

/// The overlay's periodic update.
pub fn overlay_websocket_handler(state: &AppState, game_clock: u64, countdown_clock: u64, x: &OverlayExtras) -> (r: String)
    requires
        roll_in_range(*x),
    ensures
        r@ == overlay_message(state@, game_clock, countdown_clock, *x),
{
    let mut s = String::new();
    s.append(OVERLAY_0);
    push_decimal(&mut s, state.home_points as u64);
    s.append("-");
    push_decimal(&mut s, state.away_points as u64);
    s.append(OVERLAY_1);
    push_overlay_time(&mut s, game_clock, state);
    s.append(OVERLAY_2);
    push_down_and_togo(&mut s, state.down, state.downs_togo);
    s.append(OVERLAY_3);
    push_countdown_box(&mut s, state, countdown_clock, x.countdown_opacity);
    s.append(OVERLAY_4);
    if x.show_sponsors && x.sponsor_tags.len() > 0 {
        s.append(SPONSOR_PARENT_OPEN);
        s.append(x.sponsor_tags[x.sponsor_idx].as_str());
        s.append("</div>");
    }
    s.append(OVERLAY_5);
    push_overlay_style(&mut s, state);
    s.append(OVERLAY_6);
    push_popups_html(&mut s, x.popups_home, x.popups_away);
    s.append(OVERLAY_7);
    proof {
        assert(s@ =~= overlay_message(state@, game_clock, countdown_clock, *x));
    }
    s
}

/// The overlay hides the downs box exactly when the downs are off and the
/// scoreboard exactly when it is off: the hiding rule is in the message when
/// the switch is off, and switching it off lengthens the message by that rule
/// and nothing else.
pub proof fn lemma_overlay_hides_switched_off<'a>(
    st: AppStateView,
    game: u64,
    countdown: u64,
    x: OverlayExtras<'a>,
)
    ensures
        !st.show_downs ==> crate::text::occurs_in(
            OVERLAY_HIDE_DOWNS@,
            overlay_message(st, game, countdown, x),
        ),
        !st.show_scoreboard ==> crate::text::occurs_in(
            OVERLAY_HIDE_SCOREBOARD@,
            overlay_message(st, game, countdown, x),
        ),
        overlay_message(AppStateView { show_downs: false, ..st }, game, countdown, x).len()
            == overlay_message(AppStateView { show_downs: true, ..st }, game, countdown, x).len()
            + OVERLAY_HIDE_DOWNS@.len(),
        overlay_message(AppStateView { show_scoreboard: false, ..st }, game, countdown, x).len()
            == overlay_message(AppStateView { show_scoreboard: true, ..st }, game, countdown, x).len()
            + OVERLAY_HIDE_SCOREBOARD@.len(),
{
    crate::text::lemma_occurs_concat(OVERLAY_HIDE_DOWNS@);
    crate::text::lemma_occurs_concat(OVERLAY_HIDE_SCOREBOARD@);
}

/// The dashboard hides the downs exactly when they are off: the hiding rule
/// is in the message when the switch is off, and switching it off lengthens
/// the message by that rule and nothing else.
pub proof fn lemma_dashboard_hides_downs(st: AppStateView, game: u64, countdown: u64, uptime: u64)
    ensures
        !st.show_downs ==> crate::text::occurs_in(
            DASH_HIDE_DOWNS@,
            dashboard_message(st, game, countdown, uptime),
        ),
        dashboard_message(AppStateView { show_downs: false, ..st }, game, countdown, uptime).len()
            == dashboard_message(AppStateView { show_downs: true, ..st }, game, countdown, uptime).len()
            + DASH_HIDE_DOWNS@.len(),
{
    crate::text::lemma_occurs_concat(DASH_HIDE_DOWNS@);
}

/// The overlay's update opens with the score box holding the home score,
/// a dash and the away score, in that order.
pub proof fn lemma_overlay_score_first<'a>(
    st: AppStateView,
    game: u64,
    countdown: u64,
    x: OverlayExtras<'a>,
)
    ensures
        crate::text::is_prefix(
            OVERLAY_0@ + decimal(st.home_points as nat) + "-"@ + decimal(st.away_points as nat)
                + OVERLAY_1@,
            overlay_message(st, game, countdown, x),
        ),
{
    let p = OVERLAY_0@ + decimal(st.home_points as nat) + "-"@ + decimal(st.away_points as nat)
        + OVERLAY_1@;
    let m = overlay_message(st, game, countdown, x);
    assert(m.subrange(0, p.len() as int) =~= p);
}

/// The dashboard's update opens with the home counter holding the home
/// score and then the away counter holding the away score.
pub proof fn lemma_dashboard_scores_first(st: AppStateView, game: u64, countdown: u64, uptime: u64)
    ensures
        crate::text::is_prefix(
            DASH_0@ + decimal(st.home_points as nat) + DASH_1@ + decimal(st.away_points as nat)
                + DASH_2@,
            dashboard_message(st, game, countdown, uptime),
        ),
{
    let p = DASH_0@ + decimal(st.home_points as nat) + DASH_1@ + decimal(st.away_points as nat)
        + DASH_2@;
    let m = dashboard_message(st, game, countdown, uptime);
    assert(m.subrange(0, p.len() as int) =~= p);
}

/// The overlay's update shows the quarter, the down and yards to go, the
/// countdown's caption and reading while the countdown is on, the current
/// sponsor's logo while sponsors are shown, and every popup of both teams.
pub proof fn lemma_overlay_shows_state<'a>(
    st: AppStateView,
    game: u64,
    countdown: u64,
    x: OverlayExtras<'a>,
)
    requires
        roll_in_range(x),
    ensures
        crate::text::occurs_in(quarter_text(st.quarter), overlay_message(st, game, countdown, x)),
        crate::text::occurs_in(
            down_and_togo(st.down, st.downs_togo),
            overlay_message(st, game, countdown, x),
        ),
        st.show_countdown ==> crate::text::occurs_in(
            st.countdown_text,
            overlay_message(st, game, countdown, x),
        ) && crate::text::occurs_in(
            minutes_seconds(countdown),
            overlay_message(st, game, countdown, x),
        ),
        x.show_sponsors && x.sponsor_tags@.len() > 0 ==> crate::text::occurs_in(
            x.sponsor_tags@[x.sponsor_idx as int]@,
            overlay_message(st, game, countdown, x),
        ),
        forall|i: int|
            0 <= i < x.popups_home@.len() ==> crate::text::occurs_in(
                "<span>"@ + (#[trigger] x.popups_home@[i]).0@ + "</span>"@,
                overlay_message(st, game, countdown, x),
            ),
        forall|i: int|
            0 <= i < x.popups_away@.len() ==> crate::text::occurs_in(
                "<span>"@ + (#[trigger] x.popups_away@[i]).0@ + "</span>"@,
                overlay_message(st, game, countdown, x),
            ),
{
    crate::text::lemma_occurs_concat(quarter_text(st.quarter));
    crate::text::lemma_occurs_concat(down_and_togo(st.down, st.downs_togo));
    crate::text::lemma_occurs_concat(st.countdown_text);
    crate::text::lemma_occurs_concat(minutes_seconds(countdown));
    if x.show_sponsors && x.sponsor_tags@.len() > 0 {
        crate::text::lemma_occurs_concat(x.sponsor_tags@[x.sponsor_idx as int]@);
    }
    assert forall|i: int| 0 <= i < x.popups_home@.len() implies crate::text::occurs_in(
        "<span>"@ + (#[trigger] x.popups_home@[i]).0@ + "</span>"@,
        overlay_message(st, game, countdown, x),
    ) by {
        let t = "<span>"@ + x.popups_home@[i].0@ + "</span>"@;
        crate::popups::lemma_every_popup_shown(HOME_POPUP_OPEN@, x.popups_home@, i);
        crate::text::lemma_occurs_concat(t);
    }
    assert forall|i: int| 0 <= i < x.popups_away@.len() implies crate::text::occurs_in(
        "<span>"@ + (#[trigger] x.popups_away@[i]).0@ + "</span>"@,
        overlay_message(st, game, countdown, x),
    ) by {
        let t = "<span>"@ + x.popups_away@[i].0@ + "</span>"@;
        crate::popups::lemma_every_popup_shown(AWAY_POPUP_OPEN@, x.popups_away@, i);
        crate::text::lemma_occurs_concat(t);
    }
}

} // verus!
