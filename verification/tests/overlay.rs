use froggi::teaminfo::preset_button_css;
use froggi::overlay::{
    dashboard_websocket_handler, overlay_websocket_handler, push_uptime, OverlayExtras,
    COUNTDOWN_0, COUNTDOWN_1, COUNTDOWN_2, DASH_0, DASH_1, DASH_10, DASH_11, DASH_2, DASH_3,
    DASH_4, DASH_5, DASH_6, DASH_7, DASH_8, DASH_9, DASH_HIDE_DOWNS, DASH_STYLE_CLOSE,
    DASH_STYLE_OPEN, OVERLAY_0, OVERLAY_1, OVERLAY_2, OVERLAY_3, OVERLAY_4, OVERLAY_5, OVERLAY_6,
    OVERLAY_7, OVERLAY_HIDE_SCOREBOARD, OVERLAY_STYLE_0, OVERLAY_STYLE_1, OVERLAY_STYLE_2,
    SPONSOR_PARENT_OPEN,
};
use froggi::popups::HOME_POPUP_OPEN;
use froggi::state::AppState;
use froggi::teaminfo::{
    button_text_color, complementary_of, find_preset, preset_image_file,
    teaminfo_button_css_handler, teaminfo_preset_field, teaminfo_preset_remove_handler,
    teaminfo_preset_select_handler, teaminfo_preset_selector_handler, PresetFiles, Teaminfo,
    CSS_0, CSS_1, CSS_2, CSS_3, CSS_4, CSS_5, CSS_6, CSS_COLOR, PRESET_0, PRESET_1, PRESET_2,
    PRESET_3, PRESET_4, PRESET_5, PRESET_6, PRESET_7, PRESET_8, PRESET_9,
};

#[test]
fn uptime_is_hours_minutes_seconds() {
    let mut s = String::new();
    push_uptime(&mut s, 3_725);
    assert_eq!(s, "01:02:05");
    let mut t = String::new();
    push_uptime(&mut t, 360_000);
    assert_eq!(t, "100:00:00");
}

#[test]
fn dashboard_message_carries_every_counter() {
    let mut st = AppState::default();
    st.home_points = 7;
    st.away_points = 3;
    st.down = 2;
    st.downs_togo = 101;
    st.quarter = 5;
    st.show_downs = false;
    let msg = dashboard_websocket_handler(&st, 125_000, 9_000, 61);
    let expected = format!(
        "{}7{}3{}2{}05{}0{}09{}2nd{}Goal{}OT{}00:01:01{}{}{}{}{}",
        DASH_0, DASH_1, DASH_2, DASH_3, DASH_4, DASH_5, DASH_6, DASH_7, DASH_8, DASH_9, DASH_10,
        DASH_STYLE_OPEN, DASH_HIDE_DOWNS, DASH_STYLE_CLOSE, DASH_11
    );
    assert_eq!(msg, expected);
}

#[test]
fn overlay_message_with_everything_shown() {
    let mut st = AppState::default();
    st.home_points = 14;
    st.away_points = 10;
    st.down = 3;
    st.downs_togo = 4;
    st.show_countdown = true;
    st.show_scoreboard = false;
    st.countdown_text = String::from("Kickoff");
    let tags = vec![String::from("<img a>"), String::from("<img b>")];
    let home = vec![(String::from("TD"), 5)];
    let away = Vec::new();
    let x = OverlayExtras {
        countdown_opacity: "0.5",
        sponsor_tags: &tags,
        show_sponsors: true,
        sponsor_idx: 1,
        popups_home: &home,
        popups_away: &away,
    };
    let msg = overlay_websocket_handler(&st, 59_990, 300_000, &x);
    let expected = format!(
        "{}14-10{}0:59:99 - 1st{}3rd & 4{}{}0.5{}Kickoff{}5:00</div>{}{}<img b></div>{}{}{}{}{}{}{}<span>TD</span></div>{}",
        OVERLAY_0, OVERLAY_1, OVERLAY_2, OVERLAY_3, COUNTDOWN_0, COUNTDOWN_1, COUNTDOWN_2,
        OVERLAY_4, SPONSOR_PARENT_OPEN, OVERLAY_5, OVERLAY_STYLE_0, OVERLAY_STYLE_1,
        OVERLAY_HIDE_SCOREBOARD, OVERLAY_STYLE_2, OVERLAY_6, HOME_POPUP_OPEN, OVERLAY_7
    );
    assert_eq!(msg, expected);
}

#[test]
fn overlay_message_with_nothing_extra() {
    let st = AppState::default();
    let tags: Vec<String> = Vec::new();
    let none: Vec<(String, u64)> = Vec::new();
    let x = OverlayExtras {
        countdown_opacity: "1",
        sponsor_tags: &tags,
        show_sponsors: true,
        sponsor_idx: 0,
        popups_home: &none,
        popups_away: &none,
    };
    let msg = overlay_websocket_handler(&st, 600_000, 0, &x);
    let expected = format!(
        "{}0-0{}10:00 - 1st{}1st & 1{}{}{}{}{}{}{}",
        OVERLAY_0, OVERLAY_1, OVERLAY_2, OVERLAY_3, OVERLAY_4, OVERLAY_5, OVERLAY_STYLE_0,
        OVERLAY_STYLE_1, OVERLAY_STYLE_2, OVERLAY_6
    ) + OVERLAY_7;
    assert_eq!(msg, expected);
}

#[test]
fn preset_form_fields() {
    let mut t = Teaminfo::new();
    teaminfo_preset_field(&mut t, "home_name", String::from("Frogs"));
    teaminfo_preset_field(&mut t, "away_color", String::from("#00FF00"));
    teaminfo_preset_field(&mut t, "mascot", String::from("ignored"));
    assert_eq!(t.home_name, "Frogs");
    assert_eq!(t.home_color, "");
    assert_eq!(t.away_name, "");
    assert_eq!(t.away_color, "#00FF00");
}

#[test]
fn preset_logo_paths() {
    assert_eq!(preset_image_file("abc", "home", "logo.png"), "team-presets/abc/home.png");
    assert_eq!(preset_image_file("abc", "away", "x.jpeg"), "team-presets/abc/away.jpeg");
}

#[test]
fn preset_list_entries() {
    let p = PresetFiles {
        id: String::from("id1"),
        home_file: String::from("home.png"),
        home_img: vec![1, 2, 3],
        away_file: String::from("away.jpg"),
        away_img: vec![],
        teaminfo: Teaminfo {
            home_name: String::from("A"),
            home_color: String::from("#111111"),
            away_name: String::from("B"),
            away_color: String::from("#222222"),
        },
    };
    let expected = format!(
        "{}png{}AQID{}#111111{}A{}B{}jpeg{}{}#222222{}id1{}id1{}",
        PRESET_0, PRESET_1, PRESET_2, PRESET_3, PRESET_4, PRESET_5, PRESET_1, PRESET_6, PRESET_7,
        PRESET_8, PRESET_9
    );
    assert_eq!(teaminfo_preset_selector_handler(&vec![p]), expected);
    assert_eq!(teaminfo_preset_selector_handler(&Vec::new()), "");
}

#[test]
fn selecting_and_removing_presets() {
    let names = vec![String::from("one"), String::from("two")];
    assert_eq!(find_preset(&names, "two"), Some(1));
    assert_eq!(find_preset(&names, "three"), None);

    let mut st = AppState::default();
    let t = Teaminfo {
        home_name: String::from("Frogs"),
        home_color: String::from("#00FF00"),
        away_name: String::from("Toads"),
        away_color: String::from("#FF0000"),
    };
    teaminfo_preset_select_handler(&mut st, String::from("two"), t);
    assert_eq!(st.preset_id, "two");
    assert_eq!(st.home_name, "Frogs");
    assert_eq!(st.away_name, "Toads");
    teaminfo_preset_remove_handler(&mut st, false);
    assert_eq!(st.preset_id, "two");
    teaminfo_preset_remove_handler(&mut st, true);
    assert_eq!(st.preset_id, "");
    assert_eq!(st.home_name, "Frogs");
}

#[test]
fn button_colours() {
    assert_eq!(complementary_of(&String::from("#FF8000")), (0, 127, 255));
    assert_eq!(button_text_color(&String::from("#FF0000"), 0), "#AAAAAA");
    assert_eq!(button_text_color(&String::from("#FF0000"), 5), "#AFAFAF");
    assert_eq!(button_text_color(&String::from("#000000"), 0), "#FFFFFF");
    let t = Teaminfo {
        home_name: String::from("A"),
        home_color: String::from("#FF0000"),
        away_name: String::from("B"),
        away_color: String::from("#FFFFFF"),
    };
    let h = "#FF0000";
    let a = "#FFFFFF";
    let expected = format!(
        "{CSS_0}{h}{CSS_COLOR}#AAAAAA{CSS_1}{h}{CSS_COLOR}#AAAAAA{CSS_2}{h}{CSS_COLOR}#AAAAAA{CSS_3}{a}{CSS_COLOR}#000000{CSS_4}{a}{CSS_COLOR}#000000{CSS_5}{a}{CSS_COLOR}#000000{CSS_6}"
    );
    assert_eq!(teaminfo_button_css_handler(&t, 0, 0), expected);
}

#[test]
fn preset_css_is_empty_without_a_readable_selected_preset() {
    let t = || Teaminfo {
        home_name: String::from("A"),
        home_color: String::from("#FF0000"),
        away_name: String::from("B"),
        away_color: String::from("#FFFFFF"),
    };
    assert_eq!(preset_button_css("", Some(t()), 0, 0), "");
    assert_eq!(preset_button_css("", None, 0, 0), "");
    assert_eq!(preset_button_css("abc", None, 0, 0), "");
    assert_eq!(preset_button_css("abc", Some(t()), 0, 0), teaminfo_button_css_handler(&t(), 0, 0));
    assert!(preset_button_css("abc", Some(t()), 0, 0).contains("#AAAAAA"));
}
