//! The text that the scoreboard's displays show: downs, yards to go,
//! quarter, scores, team names, visibility buttons and the log.
use vstd::prelude::*;
use crate::state::{AppState, AppStateView};
use crate::text::{str_equal, push_decimal, decimal, decimal_string};

verus! {

/// `1st` to `4th` for the four downs and quarters; empty otherwise.
pub open spec fn ordinal(n: u8) -> Seq<char> {
    if n == 1 {
        "1st"@
    } else if n == 2 {
        "2nd"@
    } else if n == 3 {
        "3rd"@
    } else if n == 4 {
        "4th"@
    } else {
        Seq::empty()
    }
}

/// The ordinal of a down or quarter from 1 to 4, or the empty string.
pub fn ordinal_text(n: u8) -> (r: &'static str)
    ensures
        r@ == ordinal(n),
{
    if n == 1 {
        "1st"
    } else if n == 2 {
        "2nd"
    } else if n == 3 {
        "3rd"
    } else if n == 4 {
        "4th"
    } else {
        proof {
            reveal_strlit("");
        }
        ""
    }
}

/// The quarter as displayed: `1st` to `4th`, and `OT` after the fourth.
pub open spec fn quarter_text(q: u8) -> Seq<char> {
    if 1 <= q <= 4 {
        ordinal(q)
    } else {
        "OT"@
    }
}

/// The quarter display.
pub fn quarter_display_handler(state: &AppState) -> (r: &'static str)
    ensures
        r@ == quarter_text(state.quarter),
{
    if 1 <= state.quarter && state.quarter <= 4 {
        ordinal_text(state.quarter)
    } else {
        "OT"
    }
}

/// The yards to go as displayed: `Goal` for 101, `Hidden` for 0, the number
/// otherwise.
pub open spec fn togo_text(t: u8) -> Seq<char> {
    if t == 101 {
        "Goal"@
    } else if t == 0 {
        "Hidden"@
    } else {
        decimal(t as nat)
    }
}

/// The down and yards to go together: `1st & 10`, `4th & Goal`, or just the
/// down when the yards are hidden.
pub open spec fn down_and_togo(down: u8, togo: u8) -> Seq<char> {
    if togo != 0 {
        ordinal(down) + " & "@ + (if togo == 101 { "Goal"@ } else { decimal(togo as nat) })
    } else {
        ordinal(down)
    }
}

/// The downs display: `down`, `togo` or `both`; empty for any other request.
pub open spec fn downs_text(t: Seq<char>, down: u8, togo: u8) -> Seq<char> {
    if t == "down"@ {
        ordinal(down)
    } else if t == "togo"@ {
        togo_text(togo)
    } else if t == "both"@ {
        down_and_togo(down, togo)
    } else {
        Seq::empty()
    }
}

/// Appends the down and yards to go (see [`down_and_togo`]).
pub fn push_down_and_togo(s: &mut String, down: u8, togo: u8)
    ensures
        final(s)@ == old(s)@ + down_and_togo(down, togo),
{
    s.append(ordinal_text(down));
    if togo != 0 {
        s.append(" & ");
        if togo == 101 {
            s.append("Goal");
        } else {
            push_decimal(s, togo as u64);
        }
    }
    proof {
        assert(final(s)@ =~= old(s)@ + down_and_togo(down, togo));
    }
}

/// Appends the yards to go (see [`togo_text`]).
pub fn push_togo(s: &mut String, togo: u8)
    ensures
        final(s)@ == old(s)@ + togo_text(togo),
{
    if togo == 101 {
        s.append("Goal");
    } else if togo == 0 {
        s.append("Hidden");
    } else {
        push_decimal(s, togo as u64);
    }
}

/// The downs display.
pub fn downs_display_handler(state: &AppState, t: &str) -> (r: String)
    ensures
        r@ == downs_text(t@, state.down, state.downs_togo),
{
    let mut s = String::new();
    if str_equal(t, "down") {
        s.append(ordinal_text(state.down));
    } else if str_equal(t, "togo") {
        push_togo(&mut s, state.downs_togo);
    } else if str_equal(t, "both") {
        push_down_and_togo(&mut s, state.down, state.downs_togo);
    }
    proof {
        assert(s@ =~= downs_text(t@, state.down, state.downs_togo));
    }
    s
}

/// The home score display.
pub fn home_points_display_handler(state: &AppState) -> (r: String)
    ensures
        r@ == decimal(state.home_points as nat),
{
    decimal_string(state.home_points as u64)
}

/// The away score display.
pub fn away_points_display_handler(state: &AppState) -> (r: String)
    ensures
        r@ == decimal(state.away_points as nat),
{
    decimal_string(state.away_points as u64)
}

/// A team's name: `home` or `away`; empty for any other request.
pub open spec fn team_name_text(t: Seq<char>, state: AppStateView) -> Seq<char> {
    if t == "home"@ {
        state.home_name
    } else if t == "away"@ {
        state.away_name
    } else {
        Seq::empty()
    }
}

/// The team name display.
pub fn team_name_display_handler(state: &AppState, t: &str) -> (r: String)
    ensures
        r@ == team_name_text(t@, state@),
{
    if str_equal(t, "home") {
        state.home_name.clone()
    } else if str_equal(t, "away") {
        state.away_name.clone()
    } else {
        String::new()
    }
}

/// The label of a visibility switch: `Show <what>` when the item is hidden,
/// `Hide <what>` when it is shown.
pub open spec fn show_hide(shown: bool, what: Seq<char>) -> Seq<char> {
    (if shown { "Hide "@ } else { "Show "@ }) + what
}

pub const BUTTONS_0: &'static str = "\n    <div class=\"display-buttons\">\n        <button class=\"show-countdown\" hx-post=\"/visibility/toggle/countdown\">";
pub const BUTTONS_1: &'static str = "</button>\n        <button class=\"show-downs\" hx-post=\"/visibility/toggle/downs\">";
pub const BUTTONS_2: &'static str = "</button>\n        <button class=\"show-scoreboard\" hx-post=\"/visibility/toggle/scoreboard\">";
pub const BUTTONS_3: &'static str = "</button>\n        <button class=\"show-sponsors\" hx-post=\"/visibility/toggle/sponsors\">";
pub const BUTTONS_4: &'static str = "</button>\n    </div>\n    ";

/// The four visibility buttons of the dashboard, each labelled with what a
/// press would do.
pub open spec fn buttons_html(state: AppStateView, show_sponsors: bool) -> Seq<char> {
    BUTTONS_0@ + show_hide(state.show_countdown, "Countdown"@) + BUTTONS_1@ + show_hide(
        state.show_downs,
        "Downs/To Go"@,
    ) + BUTTONS_2@ + show_hide(state.show_scoreboard, "Scoreboard"@) + BUTTONS_3@ + show_hide(
        show_sponsors,
        "Sponsors"@,
    ) + BUTTONS_4@
}

/// Appends `Show <what>` or `Hide <what>`.
pub fn push_show_hide(s: &mut String, shown: bool, what: &str)
    ensures
        final(s)@ == old(s)@ + show_hide(shown, what@),
{
    if shown {
        s.append("Hide ");
    } else {
        s.append("Show ");
    }
    s.append(what);
    proof {
        assert(final(s)@ =~= old(s)@ + show_hide(shown, what@));
    }
}

/// The visibility buttons.
pub fn visibility_buttons_handler(state: &AppState, show_sponsors: bool) -> (r: String)
    ensures
        r@ == buttons_html(state@, show_sponsors),
{
    let mut s = String::new();
    s.append(BUTTONS_0);
    push_show_hide(&mut s, state.show_countdown, "Countdown");
    s.append(BUTTONS_1);
    push_show_hide(&mut s, state.show_downs, "Downs/To Go");
    s.append(BUTTONS_2);
    push_show_hide(&mut s, state.show_scoreboard, "Scoreboard");
    s.append(BUTTONS_3);
    push_show_hide(&mut s, show_sponsors, "Sponsors");
    s.append(BUTTONS_4);
    proof {
        assert(s@ =~= buttons_html(state@, show_sponsors));
    }
    s
}

/// Flips one visibility switch: `countdown`, `downs`, `scoreboard` or
/// `sponsors`; any other request changes nothing.
pub open spec fn toggle_post(
    v: Seq<char>,
    old_state: AppStateView,
    new_state: AppStateView,
    old_sponsors: bool,
    new_sponsors: bool,
) -> bool {
    if v == "countdown"@ {
        new_state == (AppStateView { show_countdown: !old_state.show_countdown, ..old_state })
            && new_sponsors == old_sponsors
    } else if v == "downs"@ {
        new_state == (AppStateView { show_downs: !old_state.show_downs, ..old_state })
            && new_sponsors == old_sponsors
    } else if v == "scoreboard"@ {
        new_state == (AppStateView { show_scoreboard: !old_state.show_scoreboard, ..old_state })
            && new_sponsors == old_sponsors
    } else if v == "sponsors"@ {
        new_state == old_state && new_sponsors == !old_sponsors
    } else {
        new_state == old_state && new_sponsors == old_sponsors
    }
}

/// The new label of the button that was pressed (`Show ` alone for an
/// unknown switch).
pub open spec fn toggle_label(v: Seq<char>, new_state: AppStateView, new_sponsors: bool) -> Seq<char> {
    if v == "countdown"@ {
        show_hide(new_state.show_countdown, "Countdown"@)
    } else if v == "downs"@ {
        show_hide(new_state.show_downs, "Downs/To Go"@)
    } else if v == "scoreboard"@ {
        show_hide(new_state.show_scoreboard, "Scoreboard"@)
    } else if v == "sponsors"@ {
        show_hide(new_sponsors, "Sponsors"@)
    } else {
        show_hide(false, Seq::empty())
    }
}

/// Flips a visibility switch and returns the button's new label.
pub fn visibility_toggle_handler(state: &mut AppState, show_sponsors: &mut bool, v: &str) -> (r:
    String)
    ensures
        toggle_post(v@, old(state)@, final(state)@, *old(show_sponsors), *final(show_sponsors)),
        r@ == toggle_label(v@, final(state)@, *final(show_sponsors)),
{
    proof {
        reveal_strlit("countdown");
        reveal_strlit("downs");
        reveal_strlit("scoreboard");
        reveal_strlit("sponsors");
        assert("countdown"@.len() == 9);
        assert("downs"@.len() == 5);
        assert("scoreboard"@.len() == 10);
        assert("sponsors"@.len() == 8);
        reveal_strlit("");
    }
    let mut r = String::new();
    if str_equal(v, "countdown") {
        state.show_countdown = !state.show_countdown;
        push_show_hide(&mut r, state.show_countdown, "Countdown");
    } else if str_equal(v, "downs") {
        state.show_downs = !state.show_downs;
        push_show_hide(&mut r, state.show_downs, "Downs/To Go");
    } else if str_equal(v, "scoreboard") {
        state.show_scoreboard = !state.show_scoreboard;
        push_show_hide(&mut r, state.show_scoreboard, "Scoreboard");
    } else if str_equal(v, "sponsors") {
        *show_sponsors = !*show_sponsors;
        push_show_hide(&mut r, *show_sponsors, "Sponsors");
    } else {
        push_show_hide(&mut r, false, "");
    }
    proof {
        assert(r@ =~= toggle_label(v@, state@, *show_sponsors));
    }
    r
}

/// Pressing the same visibility button twice restores every switch.
pub proof fn lemma_toggle_twice(
    v: Seq<char>,
    s0: AppStateView,
    s1: AppStateView,
    s2: AppStateView,
    b0: bool,
    b1: bool,
    b2: bool,
)
    requires
        toggle_post(v, s0, s1, b0, b1),
        toggle_post(v, s1, s2, b1, b2),
    ensures
        s2 == s0,
        b2 == b0,
{
}

/// One line of the log page: `<span>(n) message</span>`, numbered from 1.
pub open spec fn log_entry(i: nat, line: Seq<char>) -> Seq<char> {
    "<span>("@ + decimal(i + 1) + ") "@ + line + "</span>"@
}

/// Lines joined with `<br>` between them.
pub open spec fn join_br(lines: Seq<Seq<char>>) -> Seq<char>
    decreases lines.len(),
{
    if lines.len() == 0 {
        Seq::empty()
    } else if lines.len() == 1 {
        lines[0]
    } else {
        join_br(lines.drop_last()) + "<br>"@ + lines.last()
    }
}

/// The log page: the newest message first, each numbered by its position in
/// the log.
pub open spec fn logs_html(logs: Seq<String>) -> Seq<char> {
    let n = logs.len();
    join_br(Seq::new(n, |k: int| log_entry((n - 1 - k) as nat, logs[n - 1 - k]@)))
}

/// The log page.
pub fn logs_handler(logs: &Vec<String>) -> (r: String)
    ensures
        r@ == logs_html(logs@),
{
    let n = logs.len();
    let ghost entries = Seq::new(n as nat, |k: int| log_entry((n - 1 - k) as nat, logs@[n - 1 - k]@));
    let mut s = String::new();
    let mut k: usize = 0;
    while k < n
        invariant
            n == logs@.len(),
            k <= n,
            entries == Seq::new(n as nat, |k: int| log_entry((n - 1 - k) as nat, logs@[n - 1 - k]@)),
            s@ == join_br(entries.take(k as int)),
        decreases n - k,
    {
        let i = n - 1 - k;
        if k > 0 {
            s.append("<br>");
        }
        s.append("<span>(");
        push_decimal(&mut s, (i + 1) as u64);
        s.append(") ");
        s.append(logs[i].as_str());
        s.append("</span>");
        proof {
            let t = entries.take(k + 1);
            assert(t.drop_last() =~= entries.take(k as int));
            assert(t.last() == entries[k as int]);
            if k == 0 {
                assert(s@ =~= join_br(t));
            } else {
                assert(s@ =~= join_br(t));
            }
        }
        k = k + 1;
    }
    assert(entries.take(n as int) =~= entries);
    s
}

/// Each visibility button is labelled by its own switch: the dashboard shows
/// `Show <item>` for an item that is hidden and `Hide <item>` for one that is
/// shown, for the countdown, the downs, the scoreboard and the sponsors alike.
pub proof fn lemma_buttons_follow_switches(st: AppStateView, show_sponsors: bool)
    ensures
        crate::text::occurs_in(
            if st.show_countdown { "Hide Countdown"@ } else { "Show Countdown"@ },
            buttons_html(st, show_sponsors),
        ),
        crate::text::occurs_in(
            if st.show_downs { "Hide Downs/To Go"@ } else { "Show Downs/To Go"@ },
            buttons_html(st, show_sponsors),
        ),
        crate::text::occurs_in(
            if st.show_scoreboard { "Hide Scoreboard"@ } else { "Show Scoreboard"@ },
            buttons_html(st, show_sponsors),
        ),
        crate::text::occurs_in(
            if show_sponsors { "Hide Sponsors"@ } else { "Show Sponsors"@ },
            buttons_html(st, show_sponsors),
        ),
{
    reveal_strlit("Hide ");
    reveal_strlit("Show ");
    reveal_strlit("Countdown");
    reveal_strlit("Downs/To Go");
    reveal_strlit("Scoreboard");
    reveal_strlit("Sponsors");
    reveal_strlit("Hide Countdown");
    reveal_strlit("Show Countdown");
    reveal_strlit("Hide Downs/To Go");
    reveal_strlit("Show Downs/To Go");
    reveal_strlit("Hide Scoreboard");
    reveal_strlit("Show Scoreboard");
    reveal_strlit("Hide Sponsors");
    reveal_strlit("Show Sponsors");
    let l1 = show_hide(st.show_countdown, "Countdown"@);
    let l2 = show_hide(st.show_downs, "Downs/To Go"@);
    let l3 = show_hide(st.show_scoreboard, "Scoreboard"@);
    let l4 = show_hide(show_sponsors, "Sponsors"@);
    assert(l1 =~= if st.show_countdown { "Hide Countdown"@ } else { "Show Countdown"@ });
    assert(l2 =~= if st.show_downs { "Hide Downs/To Go"@ } else { "Show Downs/To Go"@ });
    assert(l3 =~= if st.show_scoreboard { "Hide Scoreboard"@ } else { "Show Scoreboard"@ });
    assert(l4 =~= if show_sponsors { "Hide Sponsors"@ } else { "Show Sponsors"@ });
    crate::text::lemma_occurs_concat(l1);
    crate::text::lemma_occurs_concat(l2);
    crate::text::lemma_occurs_concat(l3);
    crate::text::lemma_occurs_concat(l4);
}

/// Joining a line in front of other lines puts it first, followed by `<br>`
/// and the join of the others.
pub proof fn lemma_join_br_front(x: Seq<char>, rest: Seq<Seq<char>>)
    requires
        rest.len() > 0,
    ensures
        join_br(seq![x] + rest) == x + "<br>"@ + join_br(rest),
    decreases rest.len(),
{
    let all = seq![x] + rest;
    assert(all.drop_last() =~= seq![x] + rest.drop_last());
    assert(all.last() == rest.last());
    if rest.len() == 1 {
        assert(all.drop_last() =~= seq![x]);
        assert(join_br(seq![x]) == x);
        assert(join_br(rest) == rest[0]);
        assert(join_br(all) == join_br(all.drop_last()) + "<br>"@ + all.last());
        assert(join_br(all) =~= x + "<br>"@ + join_br(rest));
    } else {
        lemma_join_br_front(x, rest.drop_last());
        assert(join_br(all) =~= x + "<br>"@ + join_br(rest));
    }
}

/// Every line occurs in the join of the lines.
pub proof fn lemma_join_br_holds_each(lines: Seq<Seq<char>>, i: int)
    requires
        0 <= i < lines.len(),
    ensures
        crate::text::occurs_in(lines[i], join_br(lines)),
    decreases lines.len(),
{
    crate::text::lemma_occurs_concat(lines[i]);
    if lines.len() > 1 {
        if i < lines.len() - 1 {
            lemma_join_br_holds_each(lines.drop_last(), i);
            assert(lines.drop_last()[i] == lines[i]);
        }
    }
}

/// A new log message goes to the top of the log page: the page after it is
/// logged is its numbered line, then (when there were messages before) `<br>`
/// and the page as it was.
pub proof fn lemma_newest_log_first(logs: Seq<String>, m: String)
    ensures
        logs_html(logs.push(m)) == log_entry(logs.len(), m@) + (if logs.len() == 0 {
            Seq::<char>::empty()
        } else {
            "<br>"@ + logs_html(logs)
        }),
{
    let n = logs.len();
    let l2 = logs.push(m);
    let entries = Seq::new(n, |k: int| log_entry((n - 1 - k) as nat, logs[n - 1 - k]@));
    let entries2 = Seq::new(n + 1, |k: int| log_entry((n + 1 - 1 - k) as nat, l2[n + 1 - 1 - k]@));
    assert(entries2 =~= seq![log_entry(n, m@)] + entries);
    if n == 0 {
        assert(entries2 =~= seq![log_entry(n, m@)]);
        assert(logs_html(l2) =~= log_entry(n, m@) + Seq::<char>::empty());
    } else {
        lemma_join_br_front(log_entry(n, m@), entries);
    }
}

/// Every message of the log appears on the log page, numbered by its
/// position.
pub proof fn lemma_every_log_shown(logs: Seq<String>, i: int)
    requires
        0 <= i < logs.len(),
    ensures
        crate::text::occurs_in(log_entry(i as nat, logs[i]@), logs_html(logs)),
{
    let n = logs.len();
    let entries = Seq::new(n, |k: int| log_entry((n - 1 - k) as nat, logs[n - 1 - k]@));
    lemma_join_br_holds_each(entries, n - 1 - i);
    assert(entries[n - 1 - i] == log_entry(i as nat, logs[i]@));
}

/// After a visibility button is pressed, the label it answers with is the
/// label that the dashboard's buttons now show, and it names the opposite
/// action of the label before the press.
pub proof fn lemma_toggle_label_matches_buttons(
    v: Seq<char>,
    s0: AppStateView,
    s1: AppStateView,
    b0: bool,
    b1: bool,
)
    requires
        v == "countdown"@ || v == "downs"@ || v == "scoreboard"@ || v == "sponsors"@,
        toggle_post(v, s0, s1, b0, b1),
    ensures
        crate::text::occurs_in(toggle_label(v, s1, b1), buttons_html(s1, b1)),
        toggle_label(v, s1, b1) != toggle_label(v, s0, b0),
{
    reveal_strlit("countdown");
    reveal_strlit("downs");
    reveal_strlit("scoreboard");
    reveal_strlit("sponsors");
    reveal_strlit("Hide ");
    reveal_strlit("Show ");
    assert("countdown"@.len() == 9);
    assert("downs"@.len() == 5);
    assert("scoreboard"@.len() == 10);
    assert("sponsors"@.len() == 8);
    assert("Hide "@[0] != "Show "@[0]);
    let l1 = toggle_label(v, s1, b1);
    let l0 = toggle_label(v, s0, b0);
    assert(l1[0] != l0[0]);
    lemma_buttons_follow_switches(s1, b1);
    let l2 = show_hide(s1.show_countdown, "Countdown"@);
    let l3 = show_hide(s1.show_downs, "Downs/To Go"@);
    let l4 = show_hide(s1.show_scoreboard, "Scoreboard"@);
    let l5 = show_hide(b1, "Sponsors"@);
    crate::text::lemma_occurs_concat(l2);
    crate::text::lemma_occurs_concat(l3);
    crate::text::lemma_occurs_concat(l4);
    crate::text::lemma_occurs_concat(l5);
}

} // verus!
