//! Team presets: names, colours and logos of a match-up, the preset list,
//! choosing a preset, and the colours of the score buttons.
use vstd::prelude::*;
use crate::state::{AppState, AppStateView};
use crate::hex::{rgb_of, hex_of, strip_hashes, hex_to_rgb, rgb_to_hex};
use crate::sponsors::{has_extension, extension, image_mime, image_mime_type};
use crate::text::{str_equal, dot_segment};
use crate::trusted::{base64_standard, base64_encode};

verus! {

/// A match-up preset: the two teams' names and colours (`#RRGGBB`).
pub struct Teaminfo {
    pub home_name: String,
    pub home_color: String,
    pub away_name: String,
    pub away_color: String,
}

impl Teaminfo {
    /// A preset with every field empty.
    pub fn new() -> (t: Teaminfo)
        ensures
            t.home_name@ == Seq::<char>::empty(),
            t.home_color@ == Seq::<char>::empty(),
            t.away_name@ == Seq::<char>::empty(),
            t.away_color@ == Seq::<char>::empty(),
    {
        Teaminfo {
            home_name: String::new(),
            home_color: String::new(),
            away_name: String::new(),
            away_color: String::new(),
        }
    }
}

/// Takes one text field of the preset form: `home_name`, `home_color`,
/// `away_name` or `away_color`; any other field changes nothing.
pub fn teaminfo_preset_field(t: &mut Teaminfo, field: &str, text: String)
    ensures
        final(t).home_name@ == (if field@ == "home_name"@ { text@ } else { old(t).home_name@ }),
        final(t).home_color@ == (if field@ == "home_color"@ { text@ } else { old(t).home_color@ }),
        final(t).away_name@ == (if field@ == "away_name"@ { text@ } else { old(t).away_name@ }),
        final(t).away_color@ == (if field@ == "away_color"@ { text@ } else { old(t).away_color@ }),
{
    proof {
        reveal_strlit("home_name");
        reveal_strlit("home_color");
        reveal_strlit("away_name");
        reveal_strlit("away_color");
        assert("home_name"@.len() == 9);
        assert("home_color"@.len() == 10);
        assert("away_name"@.len() == 9);
        assert("away_color"@.len() == 10);
        assert("home_name"@[0] != "away_name"@[0]);
        assert("home_color"@[0] != "away_color"@[0]);
    }
    if str_equal(field, "home_name") {
        t.home_name = text;
    } else if str_equal(field, "home_color") {
        t.home_color = text;
    } else if str_equal(field, "away_name") {
        t.away_name = text;
    } else if str_equal(field, "away_color") {
        t.away_color = text;
    }
}

/// Where a preset's logo is stored:
/// `team-presets/<id>/<side>.<extension of the uploaded name>`.
pub open spec fn preset_image_path(id: Seq<char>, side: Seq<char>, upload_name: Seq<char>) -> Seq<
    char,
> {
    "team-presets/"@ + id + "/"@ + side + "."@ + extension(upload_name)
}

/// The path for a preset's logo; `side` is `home` or `away`.
pub fn preset_image_file(id: &str, side: &str, upload_name: &str) -> (r: String)
    requires
        has_extension(upload_name@),
    ensures
        r@ == preset_image_path(id@, side@, upload_name@),
{
    let ext = dot_segment(upload_name, 1).unwrap();
    let mut s = String::from_str("team-presets/");
    s.append(id);
    s.append("/");
    s.append(side);
    s.append(".");
    s.append(ext.as_str());
    s
}

/// What is read from one preset's directory: its identifier (the
/// directory's name), the names and contents of its two logo files, and
/// its teams.
pub struct PresetFiles {
    pub id: String,
    pub home_file: String,
    pub home_img: Vec<u8>,
    pub away_file: String,
    pub away_img: Vec<u8>,
    pub teaminfo: Teaminfo,
}

pub const PRESET_0: &'static str = "<div class=\"match-selector\">\n                <img class=\"home-logo\" src=\"data:image/";

pub const PRESET_1: &'static str = ";base64,";

pub const PRESET_2: &'static str = "\" alt=\"home-img\" height=\"30px\" width=\"auto\" style=\"border-color: ";

pub const PRESET_3: &'static str = "; border-style: solid; border-radius: 3px; border-width: 2px\">\n                <p class=\"teampreset-title\">";

pub const PRESET_4: &'static str = " vs ";

pub const PRESET_5: &'static str = "</p>\n                <img class=\"away-logo\" src=\"data:image/";

pub const PRESET_6: &'static str = "\" alt=\"away-img\" height=\"30px\" width=\"auto\" style=\"border-color: ";

pub const PRESET_7: &'static str = "; border-style: solid; border-radius: 3px; border-width: 2px;\">\n                <button class=\"select-button\" hx-post=\"/teaminfo/select/";

pub const PRESET_8: &'static str = "\" hx-swap=\"none\">Select</button>\n                <button class=\"remove-button\" hx-post=\"/teaminfo/remove/";

pub const PRESET_9: &'static str = "\" hx-swap=\"none\">Remove</button>\n            </div>";

/// One preset in the preset list: both logos with the team colours as
/// borders, the match-up title, and select and remove buttons.
pub open spec fn preset_entry(p: PresetFiles) -> Seq<char> {
    PRESET_0@ + image_mime(extension(p.home_file@)) + PRESET_1@ + base64_standard(p.home_img@)
        + PRESET_2@ + p.teaminfo.home_color@ + PRESET_3@ + p.teaminfo.home_name@ + PRESET_4@
        + p.teaminfo.away_name@ + PRESET_5@ + image_mime(extension(p.away_file@)) + PRESET_1@
        + base64_standard(p.away_img@) + PRESET_6@ + p.teaminfo.away_color@ + PRESET_7@ + p.id@
        + PRESET_8@ + p.id@ + PRESET_9@
}

/// The preset list: the entries of all presets, one after another.
pub open spec fn presets_list(ps: Seq<PresetFiles>) -> Seq<char>
    decreases ps.len(),
{
    if ps.len() == 0 {
        Seq::empty()
    } else {
        presets_list(ps.drop_last()) + preset_entry(ps.last())
    }
}

/// Whether every preset's logo files have extensions.
pub open spec fn presets_well_named(ps: Seq<PresetFiles>) -> bool {
    forall|i: int|
        0 <= i < ps.len() ==> has_extension(#[trigger] ps[i].home_file@) && has_extension(
            ps[i].away_file@,
        )
}

fn push_preset_entry(s: &mut String, p: &PresetFiles)
    requires
        has_extension(p.home_file@),
        has_extension(p.away_file@),
    ensures
        final(s)@ == old(s)@ + preset_entry(*p),
{
    let home_ext = dot_segment(p.home_file.as_str(), 1).unwrap();
    let away_ext = dot_segment(p.away_file.as_str(), 1).unwrap();
    s.append(PRESET_0);
    s.append(image_mime_type(home_ext.as_str()));
    s.append(PRESET_1);
    s.append(base64_encode(p.home_img.as_slice()).as_str());
    s.append(PRESET_2);
    s.append(p.teaminfo.home_color.as_str());
    s.append(PRESET_3);
    s.append(p.teaminfo.home_name.as_str());
    s.append(PRESET_4);
    s.append(p.teaminfo.away_name.as_str());
    s.append(PRESET_5);
    s.append(image_mime_type(away_ext.as_str()));
    s.append(PRESET_1);
    s.append(base64_encode(p.away_img.as_slice()).as_str());
    s.append(PRESET_6);
    s.append(p.teaminfo.away_color.as_str());
    s.append(PRESET_7);
    s.append(p.id.as_str());
    s.append(PRESET_8);
    s.append(p.id.as_str());
    s.append(PRESET_9);
    proof {
        assert(final(s)@ =~= old(s)@ + preset_entry(*p));
    }
}

/// The preset list.
pub fn teaminfo_preset_selector_handler(presets: &Vec<PresetFiles>) -> (r: String)
    requires
        presets_well_named(presets@),
    ensures
        r@ == presets_list(presets@),
{
    let n = presets.len();
    let mut s = String::new();
    let mut i: usize = 0;
    while i < n
        invariant
            n == presets@.len(),
            i <= n,
            presets_well_named(presets@),
            s@ == presets_list(presets@.take(i as int)),
        decreases n - i,
    {
        assert(has_extension(presets@[i as int].home_file@));
        push_preset_entry(&mut s, &presets[i]);
        proof {
            let t = presets@.take(i + 1);
            assert(t.drop_last() =~= presets@.take(i as int));
            assert(t.last() == presets@[i as int]);
        }
        i = i + 1;
    }
    assert(presets@.take(n as int) =~= presets@);
    s
}

/// The first preset directory named `id`.
pub fn find_preset(names: &Vec<String>, id: &str) -> (r: Option<usize>)
    ensures
        match r {
            Some(i) => i < names@.len() && names@[i as int]@ == id@ && forall|j: int|
                0 <= j < i ==> (#[trigger] names@[j])@ != id@,
            None => forall|j: int| 0 <= j < names@.len() ==> (#[trigger] names@[j])@ != id@,
        },
{
    let n = names.len();
    let mut i: usize = 0;
    while i < n
        invariant
            n == names@.len(),
            i <= n,
            forall|j: int| 0 <= j < i ==> (#[trigger] names@[j])@ != id@,
        decreases n - i,
    {
        if str_equal(names[i].as_str(), id) {
            return Some(i);
        }
        i = i + 1;
    }
    None
}

/// Selects a preset: it becomes the current preset and its team names are
/// shown.
pub fn teaminfo_preset_select_handler(state: &mut AppState, id: String, t: Teaminfo)
    ensures
        final(state)@ == (AppStateView {
            preset_id: id@,
            home_name: t.home_name@,
            away_name: t.away_name@,
            ..old(state)@
        }),
{
    state.preset_id = id;
    state.home_name = t.home_name;
    state.away_name = t.away_name;
}

/// After a preset's directory is removed, no preset is current; when the
/// removal failed nothing changes.
pub fn teaminfo_preset_remove_handler(state: &mut AppState, removed: bool)
    ensures
        final(state)@ == (if removed {
            AppStateView { preset_id: Seq::empty(), ..old(state)@ }
        } else {
            old(state)@
        }),
{
    if removed {
        state.preset_id = String::new();
    }
}

/// The complementary colour: each channel's distance from full intensity.
pub open spec fn complementary(rgb: (u8, u8, u8)) -> (u8, u8, u8) {
    ((255 - rgb.0) as u8, (255 - rgb.1) as u8, (255 - rgb.2) as u8)
}

/// The average of a colour's three channels, rounded down.
pub open spec fn grayscale(rgb: (u8, u8, u8)) -> u8 {
    ((rgb.0 + rgb.1 + rgb.2) / 3) as u8
}

/// The complementary colour of a `#RRGGBB` team colour.
pub fn complementary_of(color: &String) -> (r: (u8, u8, u8))
    requires
        strip_hashes(color@).len() >= 6,
    ensures
        r == complementary(rgb_of(color@)),
{
    let c = hex_to_rgb(color);
    (255 - c.0, 255 - c.1, 255 - c.2)
}

/// The text colour on a button of the given team colour: a gray whose level
/// is the average of the complementary colour's channels raised by
/// `nudge`.
pub open spec fn text_color(color: Seq<char>, nudge: u8) -> Seq<char> {
    let g = (grayscale(complementary(rgb_of(color))) + nudge) as u8;
    hex_of((g, g, g))
}

/// Whether a team colour's text gray fits in a byte after the nudge, as the
/// byte arithmetic requires.
pub open spec fn text_color_fits(color: Seq<char>, nudge: u8) -> bool {
    strip_hashes(color).len() >= 6 && grayscale(complementary(rgb_of(color))) + nudge <= 255
}

/// The text colour for a team colour (see [`text_color`]).
pub fn button_text_color(color: &String, nudge: u8) -> (r: String)
    requires
        text_color_fits(color@, nudge),
    ensures
        r@ == text_color(color@, nudge),
{
    let c = complementary_of(color);
    let gray = ((c.0 as u32 + c.1 as u32 + c.2 as u32) / 3) as u8;
    let g = gray + nudge;
    rgb_to_hex(&(g, g, g))
}

pub const CSS_0: &'static str = "\n            <style>\n                .button-decrement-home {\n                    background-color: ";

pub const CSS_COLOR: &'static str = ";\n                    color: ";

pub const CSS_1: &'static str = ";\n                }\n                .button-increment-home {\n                    background-color: ";

pub const CSS_2: &'static str = ";\n                }\n                .button-preset-score-home {\n                    background-color: ";

pub const CSS_3: &'static str = ";\n                }\n                .button-decrement-away {\n                    background-color: ";

pub const CSS_4: &'static str = ";\n                }\n                .button-increment-away {\n                    background-color: ";

pub const CSS_5: &'static str = ";\n                }\n                .button-preset-score-away {\n                    background-color: ";

pub const CSS_6: &'static str = ";\n                }\n            </style>\n            ";

/// The style sheet of the score buttons: the three home buttons in the home
/// colour and the three away buttons in the away colour, each with its text
/// colour.
pub open spec fn button_css(home: Seq<char>, home_text: Seq<char>, away: Seq<char>, away_text: Seq<
    char,
>) -> Seq<char> {
    CSS_0@ + home + CSS_COLOR@ + home_text + CSS_1@ + home + CSS_COLOR@ + home_text + CSS_2@ + home
        + CSS_COLOR@ + home_text + CSS_3@ + away + CSS_COLOR@ + away_text + CSS_4@ + away
        + CSS_COLOR@ + away_text + CSS_5@ + away + CSS_COLOR@ + away_text + CSS_6@
}

fn push_button(s: &mut String, sep: &str, color: &str, text: &str)
    ensures
        final(s)@ == old(s)@ + sep@ + color@ + CSS_COLOR@ + text@,
{
    s.append(sep);
    s.append(color);
    s.append(CSS_COLOR);
    s.append(text);
    proof {
        assert(final(s)@ =~= old(s)@ + sep@ + color@ + CSS_COLOR@ + text@);
    }
}

/// The score buttons' style sheet for the current preset's teams, given the
/// gray nudges of the two text colours.
pub fn teaminfo_button_css_handler(t: &Teaminfo, home_nudge: u8, away_nudge: u8) -> (r: String)
    requires
        text_color_fits(t.home_color@, home_nudge),
        text_color_fits(t.away_color@, away_nudge),
    ensures
        r@ == button_css(
            t.home_color@,
            text_color(t.home_color@, home_nudge),
            t.away_color@,
            text_color(t.away_color@, away_nudge),
        ),
{
    let home_text = button_text_color(&t.home_color, home_nudge);
    let away_text = button_text_color(&t.away_color, away_nudge);
    let mut s = String::new();
    push_button(&mut s, CSS_0, t.home_color.as_str(), home_text.as_str());
    push_button(&mut s, CSS_1, t.home_color.as_str(), home_text.as_str());
    push_button(&mut s, CSS_2, t.home_color.as_str(), home_text.as_str());
    push_button(&mut s, CSS_3, t.away_color.as_str(), away_text.as_str());
    push_button(&mut s, CSS_4, t.away_color.as_str(), away_text.as_str());
    push_button(&mut s, CSS_5, t.away_color.as_str(), away_text.as_str());
    s.append(CSS_6);
    proof {
        assert(s@ =~= button_css(
            t.home_color@,
            home_text@,
            t.away_color@,
            away_text@,
        ));
    }
    s
}

/// The score buttons' style sheet for the selected preset: empty when no
/// preset is selected (the identifier is empty) or the selected preset's
/// teams could not be read; otherwise [`button_css`] for its two teams.
pub open spec fn preset_css(
    preset_id: Seq<char>,
    preset: Option<Teaminfo>,
    home_nudge: u8,
    away_nudge: u8,
) -> Seq<char> {
    if preset_id.len() == 0 {
        Seq::empty()
    } else {
        match preset {
            None => Seq::empty(),
            Some(t) => button_css(
                t.home_color@,
                text_color(t.home_color@, home_nudge),
                t.away_color@,
                text_color(t.away_color@, away_nudge),
            ),
        }
    }
}

/// The score buttons' style sheet for the selected preset, given the
/// teams read from it (`None` when they could not be read).
pub fn preset_button_css(
    preset_id: &str,
    preset: Option<Teaminfo>,
    home_nudge: u8,
    away_nudge: u8,
) -> (r: String)
    requires
        preset_id@.len() > 0 && preset is Some ==> text_color_fits(
            preset->0.home_color@,
            home_nudge,
        ) && text_color_fits(preset->0.away_color@, away_nudge),
    ensures
        r@ == preset_css(preset_id@, preset, home_nudge, away_nudge),
{
    if preset_id.is_empty() {
        return String::new();
    }
    match preset {
        None => String::new(),
        Some(t) => teaminfo_button_css_handler(&t, home_nudge, away_nudge),
    }
}

/// The preset list of two batches of presets is the list of the first
/// followed by the list of the second: so the list holds one entry per
/// preset, in order.
pub proof fn lemma_presets_list_append(a: Seq<PresetFiles>, b: Seq<PresetFiles>)
    ensures
        presets_list(a + b) == presets_list(a) + presets_list(b),
    decreases b.len(),
{
    if b.len() == 0 {
        assert(a + b =~= a);
        assert(presets_list(a) + presets_list(b) =~= presets_list(a));
    } else {
        lemma_presets_list_append(a, b.drop_last());
        assert((a + b).drop_last() =~= a + b.drop_last());
        assert((a + b).last() == b.last());
    }
}

/// The preset list of a single preset is that preset's entry.
pub proof fn lemma_presets_list_single(p: PresetFiles)
    ensures
        presets_list(seq![p]) == preset_entry(p),
{
    assert(seq![p].drop_last() =~= Seq::<PresetFiles>::empty());
    assert(presets_list(seq![p].drop_last()).len() == 0);
    assert(presets_list(seq![p]) =~= preset_entry(p));
}

/// Every preset has its entry, with its select and remove buttons, in the
/// preset list.
pub proof fn lemma_every_preset_listed(ps: Seq<PresetFiles>, i: int)
    requires
        0 <= i < ps.len(),
    ensures
        crate::text::occurs_in(preset_entry(ps[i]), presets_list(ps)),
{
    let p = ps[i];
    let before = ps.take(i);
    let after = ps.skip(i + 1);
    assert(ps =~= before + seq![p] + after);
    lemma_presets_list_append(before + seq![p], after);
    lemma_presets_list_append(before, seq![p]);
    lemma_presets_list_single(p);
    let e = preset_entry(p);
    crate::text::lemma_occurs_concat(e);
    assert(crate::text::occurs_in(e, presets_list(before) + e));
}

} // verus!
