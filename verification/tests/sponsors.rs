use froggi::popups::{
    popup_away_ticker, popup_handler, popup_home_ticker, push_popups_html, AWAY_POPUP_OPEN,
    HOME_POPUP_OPEN, POPUP_SECONDS,
};
use froggi::sponsors::{
    image_mime_type, load_sponsors, sponsor_img_tag, sponsor_remove_handler, sponsor_ticker,
    sponsors_management_handler, upload_sponsors_handler, SPONSOR_ENTRY_0, SPONSOR_ENTRY_1,
    SPONSOR_ENTRY_2, SPONSOR_ENTRY_3, SPONSOR_TAG_0, SPONSOR_TAG_1, SPONSOR_TAG_2,
};

#[test]
fn popups_go_to_the_named_team() {
    let mut home = Vec::new();
    let mut away = Vec::new();
    popup_handler("home", Some(String::from("Touchdown!")), &mut home, &mut away);
    popup_handler("away", Some(String::from("Field goal")), &mut home, &mut away);
    popup_handler("nobody", Some(String::from("lost")), &mut home, &mut away);
    popup_handler("home", None, &mut home, &mut away);
    assert_eq!(home, vec![(String::from("Touchdown!"), POPUP_SECONDS)]);
    assert_eq!(away, vec![(String::from("Field goal"), 7)]);
}

#[test]
fn popups_lose_time_and_expire() {
    let mut home = vec![(String::from("a"), 7), (String::from("b"), 2), (String::from("c"), 3)];
    popup_home_ticker(&mut home, 2);
    assert_eq!(home, vec![(String::from("a"), 5), (String::from("c"), 1)]);
    popup_home_ticker(&mut home, 1);
    assert_eq!(home, vec![(String::from("a"), 4)]);
    let mut away = vec![(String::from("x"), 1)];
    popup_away_ticker(&mut away, 1);
    assert!(away.is_empty());
    popup_away_ticker(&mut away, 1);
    assert!(away.is_empty());
}

#[test]
fn popup_html_lists_each_team() {
    let home = vec![(String::from("one"), 3), (String::from("two"), 3)];
    let away: Vec<(String, u64)> = Vec::new();
    let mut s = String::from("#");
    push_popups_html(&mut s, &home, &away);
    assert_eq!(
        s,
        format!("#{}<span>one</span><br><span>two</span></div>", HOME_POPUP_OPEN)
    );
    let mut t = String::new();
    push_popups_html(&mut t, &away, &vec![(String::from("z"), 1)]);
    assert_eq!(t, format!("{}<span>z</span></div>", AWAY_POPUP_OPEN));
}

#[test]
fn image_types_of_extensions() {
    assert_eq!(image_mime_type("png"), "png");
    assert_eq!(image_mime_type("jpg"), "jpeg");
    assert_eq!(image_mime_type("jpeg"), "jpeg");
    assert_eq!(image_mime_type("gif"), "");
}

#[test]
fn sponsor_roll_wraps_around() {
    let mut idx = 0usize;
    sponsor_ticker(&mut idx, true, 3);
    assert_eq!(idx, 1);
    sponsor_ticker(&mut idx, true, 3);
    assert_eq!(idx, 2);
    sponsor_ticker(&mut idx, true, 3);
    assert_eq!(idx, 0);
    sponsor_ticker(&mut idx, false, 3);
    assert_eq!(idx, 0);
    sponsor_ticker(&mut idx, true, 0);
    assert_eq!(idx, 0);
}

#[test]
fn sponsor_roll_cycles_through_every_logo() {
    let len = 4usize;
    let mut idx = 2usize;
    let mut seen = Vec::new();
    for _ in 0..len {
        sponsor_ticker(&mut idx, true, len);
        assert!(idx < len);
        seen.push(idx);
    }
    assert_eq!(idx, 2);
    seen.sort();
    assert_eq!(seen, vec![0, 1, 2, 3]);
}

#[test]
fn sponsor_tag_encodes_the_logo() {
    let tag = sponsor_img_tag("logo.png", &[1u8, 2, 3]);
    assert_eq!(tag, format!("{}png{}AQID{}", SPONSOR_TAG_0, SPONSOR_TAG_1, SPONSOR_TAG_2));
    let tag2 = sponsor_img_tag("photo.jpg", b"Man");
    assert_eq!(tag2, format!("{}jpeg{}TWFu{}", SPONSOR_TAG_0, SPONSOR_TAG_1, SPONSOR_TAG_2));
}

#[test]
fn loading_sponsors_appends_tags_and_restarts_the_roll() {
    let mut tags = vec![String::from("old")];
    let mut idx = 5usize;
    let files = vec![(String::from("a.png"), vec![0u8]), (String::from("b.jpeg"), vec![])];
    load_sponsors(&mut tags, &mut idx, &files);
    assert_eq!(idx, 0);
    assert_eq!(tags.len(), 3);
    assert_eq!(tags[0], "old");
    assert_eq!(tags[1], format!("{}png{}AA=={}", SPONSOR_TAG_0, SPONSOR_TAG_1, SPONSOR_TAG_2));
    assert_eq!(tags[2], format!("{}jpeg{}{}", SPONSOR_TAG_0, SPONSOR_TAG_1, SPONSOR_TAG_2));
    let mut idx2 = 5usize;
    load_sponsors(&mut tags, &mut idx2, &Vec::new());
    assert_eq!(idx2, 5);
    assert_eq!(tags.len(), 3);
}

#[test]
fn management_list_has_one_entry_per_file() {
    let files = vec![(String::from("acme.png"), vec![0xffu8, 0xff])];
    assert_eq!(
        sponsors_management_handler(&files),
        format!(
            "{}png{}//8={}acme{}",
            SPONSOR_ENTRY_0, SPONSOR_ENTRY_1, SPONSOR_ENTRY_2, SPONSOR_ENTRY_3
        )
    );
    assert_eq!(sponsors_management_handler(&Vec::new()), "");
}

#[test]
fn removing_finds_the_first_file_with_that_id() {
    let names = vec![String::from("abc.png"), String::from("xyz.jpg"), String::from("xyz.png")];
    assert_eq!(sponsor_remove_handler(&names, "xyz"), Some(1));
    assert_eq!(sponsor_remove_handler(&names, "abc"), Some(0));
    assert_eq!(sponsor_remove_handler(&names, "nope"), None);
}

#[test]
fn uploads_are_stored_under_their_id() {
    assert_eq!(upload_sponsors_handler("Ab12", "my logo.jpeg"), "./sponsors/Ab12.jpeg");
    assert_eq!(upload_sponsors_handler("q", "x.png.bak"), "./sponsors/q.png");
}

#[test]
fn two_popup_passes_equal_one_longer_pass() {
    let start = vec![(String::from("a"), 7), (String::from("b"), 3), (String::from("c"), 5)];
    let mut twice = start.clone();
    popup_home_ticker(&mut twice, 2);
    popup_home_ticker(&mut twice, 1);
    let mut once = start;
    popup_home_ticker(&mut once, 3);
    assert_eq!(twice, once);
    assert_eq!(once, vec![(String::from("a"), 4), (String::from("c"), 2)]);
}
