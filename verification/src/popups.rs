//! Popup messages that the overlay shows next to a team for a few seconds.
use vstd::prelude::*;
use crate::text::str_equal;
use crate::display::join_br;

verus! {

/// How long a new popup stays on screen, in seconds.
pub const POPUP_SECONDS: u64 = 7;

/// Queues a popup for the home or away team; any other team, or a request
/// without text, changes nothing.
pub fn popup_handler(
    a: &str,
    text: Option<String>,
    popups_home: &mut Vec<(String, u64)>,
    popups_away: &mut Vec<(String, u64)>,
)
    ensures
        match text {
            Some(t) => if a@ == "home"@ {
                final(popups_home)@ == old(popups_home)@.push((t, POPUP_SECONDS))
                    && final(popups_away)@ == old(popups_away)@
            } else if a@ == "away"@ {
                final(popups_away)@ == old(popups_away)@.push((t, POPUP_SECONDS))
                    && final(popups_home)@ == old(popups_home)@
            } else {
                final(popups_home)@ == old(popups_home)@ && final(popups_away)@ == old(
                    popups_away,
                )@
            },
            None => final(popups_home)@ == old(popups_home)@ && final(popups_away)@ == old(
                popups_away,
            )@,
        },
{
    if let Some(t) = text {
        if str_equal(a, "home") {
            popups_home.push((t, POPUP_SECONDS));
        } else if str_equal(a, "away") {
            popups_away.push((t, POPUP_SECONDS));
        }
    }
}

/// The popups after `elapsed` seconds: each loses that much time, and those
/// with no time left are dropped; the rest keep their order.
pub open spec fn popups_after(s: Seq<(String, u64)>, elapsed: u64) -> Seq<(String, u64)>
    decreases s.len(),
{
    if s.len() == 0 {
        Seq::empty()
    } else {
        let rest = popups_after(s.drop_last(), elapsed);
        let p = s.last();
        if p.1 > elapsed {
            rest.push((p.0, (p.1 - elapsed) as u64))
        } else {
            rest
        }
    }
}

/// Whether every popup has at least `elapsed` seconds left, as the
/// subtraction on their times requires.
pub open spec fn all_outlast(s: Seq<(String, u64)>, elapsed: u64) -> bool {
    forall|i: int| 0 <= i < s.len() ==> #[trigger] s[i].1 >= elapsed
}

fn popups_tick(popups: &mut Vec<(String, u64)>, elapsed: u64)
    requires
        all_outlast(old(popups)@, elapsed),
    ensures
        final(popups)@ == popups_after(old(popups)@, elapsed),
{
    let mut kept: Vec<(String, u64)> = Vec::new();
    let n = popups.len();
    let mut i: usize = 0;
    while i < n
        invariant
            n == popups@.len(),
            i <= n,
            all_outlast(popups@, elapsed),
            kept@ == popups_after(popups@.take(i as int), elapsed),
        decreases n - i,
    {
        let left = popups[i].1;
        assert(popups@[i as int].1 >= elapsed);
        proof {
            assert(popups@.take(i + 1).drop_last() =~= popups@.take(i as int));
        }
        if left - elapsed > 0 {
            let t = popups[i].0.clone();
            kept.push((t, left - elapsed));
        }
        i = i + 1;
    }
    assert(popups@.take(n as int) =~= popups@);
    *popups = kept;
}

/// One pass of the home popup timer, `elapsed` seconds after the last.
pub fn popup_home_ticker(popups: &mut Vec<(String, u64)>, elapsed: u64)
    requires
        all_outlast(old(popups)@, elapsed),
    ensures
        final(popups)@ == popups_after(old(popups)@, elapsed),
{
    popups_tick(popups, elapsed);
}

/// One pass of the away popup timer, `elapsed` seconds after the last.
pub fn popup_away_ticker(popups: &mut Vec<(String, u64)>, elapsed: u64)
    requires
        all_outlast(old(popups)@, elapsed),
    ensures
        final(popups)@ == popups_after(old(popups)@, elapsed),
{
    popups_tick(popups, elapsed);
}

/// After a pass every popup still shown has time left, no popup gains time,
/// and none is added.
pub proof fn lemma_popups_after_shrinks(s: Seq<(String, u64)>, elapsed: u64)
    ensures
        popups_after(s, elapsed).len() <= s.len(),
        forall|i: int|
            0 <= i < popups_after(s, elapsed).len() ==> #[trigger] popups_after(s, elapsed)[i].1
                > 0,
    decreases s.len(),
{
    if s.len() > 0 {
        lemma_popups_after_shrinks(s.drop_last(), elapsed);
    }
}

/// Two passes of the popup timer, `a` seconds and then `b` seconds, leave
/// the same popups, with the same time left, as one pass of `a + b` seconds.
pub proof fn lemma_popup_ticks_compose(s: Seq<(String, u64)>, a: u64, b: u64)
    requires
        a + b <= u64::MAX,
    ensures
        popups_after(popups_after(s, a), b) == popups_after(s, (a + b) as u64),
    decreases s.len(),
{
    if s.len() > 0 {
        lemma_popup_ticks_compose(s.drop_last(), a, b);
        let rest = popups_after(s.drop_last(), a);
        let p = s.last();
        if p.1 > a {
            let q = (p.0, (p.1 - a) as u64);
            assert(rest.push(q).drop_last() =~= rest);
            assert(rest.push(q).last() == q);
        }
    }
}

/// A popup's text as one line of the overlay's popup box.
pub open spec fn popup_line(p: (String, u64)) -> Seq<char> {
    "<span>"@ + p.0@ + "</span>"@
}

/// The popup box of one team: its popups' lines joined with `<br>` inside a
/// `div` of the given class, or nothing when there are none.
pub open spec fn popup_box(class_open: Seq<char>, s: Seq<(String, u64)>) -> Seq<char> {
    if s.len() > 0 {
        class_open + join_br(Seq::new(s.len(), |i: int| popup_line(s[i]))) + "</div>"@
    } else {
        Seq::empty()
    }
}

pub const HOME_POPUP_OPEN: &'static str = "<div class=\"ol-home-popup\">";

pub const AWAY_POPUP_OPEN: &'static str = "<div class=\"ol-away-popup\">";

fn push_popup_box(s: &mut String, class_open: &str, popups: &Vec<(String, u64)>)
    ensures
        final(s)@ == old(s)@ + popup_box(class_open@, popups@),
{
    let n = popups.len();
    if n == 0 {
        proof {
            assert(final(s)@ =~= old(s)@ + popup_box(class_open@, popups@));
        }
        return;
    }
    let ghost lines = Seq::new(n as nat, |i: int| popup_line(popups@[i]));
    let ghost start = s@ + class_open@;
    s.append(class_open);
    let mut i: usize = 0;
    while i < n
        invariant
            n == popups@.len(),
            i <= n,
            lines == Seq::new(n as nat, |i: int| popup_line(popups@[i])),
            s@ == start + join_br(lines.take(i as int)),
        decreases n - i,
    {
        if i > 0 {
            s.append("<br>");
        }
        s.append("<span>");
        s.append(popups[i].0.as_str());
        s.append("</span>");
        proof {
            let t = lines.take(i + 1);
            assert(t.drop_last() =~= lines.take(i as int));
            assert(t.last() == lines[i as int]);
            assert(s@ =~= start + join_br(t));
        }
        i = i + 1;
    }
    s.append("</div>");
    proof {
        assert(lines.take(n as int) =~= lines);
        assert(final(s)@ =~= old(s)@ + popup_box(class_open@, popups@));
    }
}

/// The overlay's popups: the home box, then the away box.
pub open spec fn popups_html(home: Seq<(String, u64)>, away: Seq<(String, u64)>) -> Seq<char> {
    popup_box(HOME_POPUP_OPEN@, home) + popup_box(AWAY_POPUP_OPEN@, away)
}

/// Appends the overlay's popups.
pub fn push_popups_html(s: &mut String, home: &Vec<(String, u64)>, away: &Vec<(String, u64)>)
    ensures
        final(s)@ == old(s)@ + popups_html(home@, away@),
{
    push_popup_box(s, HOME_POPUP_OPEN, home);
    push_popup_box(s, AWAY_POPUP_OPEN, away);
    proof {
        assert(final(s)@ =~= old(s)@ + popups_html(home@, away@));
    }
}

/// Every popup of a team is shown in that team's popup box.
pub proof fn lemma_every_popup_shown(class_open: Seq<char>, s: Seq<(String, u64)>, i: int)
    requires
        0 <= i < s.len(),
    ensures
        crate::text::occurs_in("<span>"@ + s[i].0@ + "</span>"@, popup_box(class_open, s)),
{
    let lines = Seq::new(s.len(), |k: int| popup_line(s[k]));
    crate::display::lemma_join_br_holds_each(lines, i);
    crate::text::lemma_occurs_concat(lines[i]);
    assert(lines[i] == "<span>"@ + s[i].0@ + "</span>"@);
}

} // verus!
