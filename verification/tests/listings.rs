use lasangnabot::guildfiles::{favs, playfav, FavMenu};
use lasangnabot::listing::Listing;
use lasangnabot::pager::{button_from_id, listing_buttons, Button, ButtonStyle, Pager};
use lasangnabot::track::{song_data_record, TrackInfo};
use lasangnabot::voice::{queue, queue_songs};

fn info(i: usize) -> TrackInfo {
    TrackInfo {
        title: Some(format!("t{}", i)),
        channel: Some(format!("c{}", i)),
        thumbnail: Some(format!("th{}", i)),
        source_url: Some(format!("u{}", i)),
        duration_secs: Some(60 * i as u64 + 5),
    }
}

#[test]
fn queue_of_nothing_says_it_is_empty() {
    match queue(&vec![], "icon") {
        Listing::Nothing(s) => assert_eq!(s, "The queue is empty!"),
        _ => panic!("expected a reply"),
    }
}

#[test]
fn queue_lists_ten_to_a_page() {
    let tracks: Vec<TrackInfo> = (1..=23).map(info).collect();
    match queue(&tracks, "icon") {
        Listing::Pages { first, pages } => {
            assert_eq!(pages.len(), 3);
            assert_eq!(pages[0].fields.len(), 10);
            assert_eq!(pages[1].fields.len(), 10);
            assert_eq!(pages[2].fields.len(), 3);
            for p in &pages {
                assert_eq!(p.title, "current queue:");
                assert_eq!(p.description.as_deref(), Some("23 songs in queue"));
                assert_eq!(p.thumbnail.as_deref(), Some("icon"));
            }
            assert_eq!(pages[0].fields[0].name, "1. t1 | c1");
            assert_eq!(pages[0].fields[0].value, "1:05");
            assert_eq!(pages[2].fields[2].name, "23. t23 | c23");
            assert_eq!(pages[2].fields[2].value, "23:05");
            assert_eq!(first.fields.len(), 10);
            for (a, b) in first.fields.iter().zip(pages[0].fields.iter()) {
                assert_eq!(a.name, b.name);
                assert_eq!(a.value, b.value);
            }
        }
        _ => panic!("expected pages"),
    }
}

#[test]
fn queue_songs_spots_a_track_without_duration() {
    let mut tracks: Vec<TrackInfo> = (1..=3).map(info).collect();
    assert_eq!(queue_songs(&tracks).unwrap().len(), 3);
    tracks[1].duration_secs = None;
    assert!(queue_songs(&tracks).is_none());
}

#[test]
fn every_track_is_listed_once() {
    let tracks: Vec<TrackInfo> = (1..=20).map(info).collect();
    if let Listing::Pages { pages, .. } = queue(&tracks, "i") {
        assert_eq!(pages.len(), 2);
        let names: Vec<String> = pages.iter().flat_map(|p| p.fields.iter().map(|f| f.name.clone())).collect();
        let expected: Vec<String> = (1..=20).map(|k| format!("{}. t{} | c{}", k, k, k)).collect();
        assert_eq!(names, expected);
    } else {
        panic!("expected pages");
    }
}

fn record(i: usize) -> String {
    song_data_record(&info(i))
}

#[test]
fn favs_lists_the_folder() {
    let files: Vec<Option<String>> = (1..=12).map(|i| Some(record(i))).collect();
    match favs("Guild", "icon", &files) {
        Listing::Pages { first, pages } => {
            assert_eq!(pages.len(), 2);
            assert_eq!(pages[0].title, "Guild favorites");
            assert_eq!(pages[0].description.as_deref(), Some("12 songs in favorites"));
            assert_eq!(pages[0].fields[0].name, "1. t1");
            assert_eq!(pages[0].fields[0].value, "c1");
            assert_eq!(pages[1].fields[1].name, "12. t12");
            assert_eq!(first.fields.len(), 10);
            assert_eq!(first.fields[9].name, "10. t10");
            assert_eq!(first.title, "Guild favorites");
        }
        _ => panic!("expected pages"),
    }
}

#[test]
fn favs_of_an_empty_folder_says_so() {
    match favs("G", "icon", &vec![]) {
        Listing::Nothing(s) => assert_eq!(s, "No songs are saved to favorites!"),
        _ => panic!("expected a reply"),
    }
}

#[test]
fn favs_opening_page_numbers_by_folder_entry() {
    let files = vec![Some(record(1)), None, Some(record(3))];
    match favs("G", "icon", &files) {
        Listing::Pages { first, pages } => {
            assert_eq!(first.fields.len(), 2);
            assert_eq!(first.fields[0].name, "1. t1");
            assert_eq!(first.fields[1].name, "3. t3");
            assert_eq!(pages[0].fields[1].name, "2. t3");
            assert_eq!(first.description.as_deref(), Some("3 songs in favorites"));
        }
        _ => panic!("expected pages"),
    }
}

#[test]
fn favs_of_a_full_page_lists_one_page() {
    let files: Vec<Option<String>> = (1..=10).map(|i| Some(record(i))).collect();
    match favs("G", "icon", &files) {
        Listing::Pages { first, pages } => {
            assert_eq!(pages.len(), 1);
            assert_eq!(first.fields.len(), 10);
            assert_eq!(pages[0].fields[9].name, "10. t10");
        }
        _ => panic!("expected pages"),
    }
}

#[test]
fn playfav_offers_a_menu() {
    let files: Vec<Option<String>> = (1..=3).map(|i| Some(record(i))).collect();
    match playfav(&files, true) {
        FavMenu::Menu(menu) => {
            assert_eq!(menu.prompt, "Select song from favorites: ");
            assert_eq!(menu.custom_id, "favmenu");
            assert_eq!(menu.placeholder, "select song");
            assert_eq!(menu.min_values, 1);
            assert_eq!(menu.max_values, 1);
            assert_eq!(menu.options.len(), 3);
            assert_eq!(menu.options[2].label, "t3");
            assert_eq!(menu.options[2].value, "u3");
        }
        _ => panic!("expected a menu"),
    }
    match playfav(&files, false) {
        FavMenu::Tell(s) => assert_eq!(s, "Must be in a voice channel to use that command!"),
        _ => panic!("expected a reply"),
    }
    match playfav(&vec![], true) {
        FavMenu::Tell(s) => assert_eq!(s, "No songs are saved to favorites!"),
        _ => panic!("expected a reply"),
    }
    match playfav(&vec![Some(record(1)), None], false) {
        FavMenu::Tell(s) => assert_eq!(s, "Must be in a voice channel to use that command!"),
        _ => panic!("expected a reply"),
    }
}

#[test]
fn pager_turns_within_its_pages() {
    let mut p = Pager::new(23);
    assert_eq!(p.current(), 0);
    assert_eq!(p.press(Button::Last), Some(0));
    assert_eq!(p.press(Button::Next), Some(1));
    assert_eq!(p.press(Button::Next), Some(2));
    assert_eq!(p.press(Button::Next), Some(2));
    assert_eq!(p.press(Button::Last), Some(1));
    assert_eq!(p.press(Button::Next), Some(2));
    assert_eq!(p.current(), 2);
}

#[test]
fn pager_reaches_a_missing_page_when_the_last_page_is_full() {
    let mut p = Pager::new(10);
    assert_eq!(p.press(Button::Next), None);
    assert_eq!(p.press(Button::Last), Some(0));
    let mut p = Pager::new(5);
    assert_eq!(p.press(Button::Next), Some(0));
}

#[test]
fn next_then_last_returns() {
    let mut p = Pager::new(35);
    assert_eq!(p.press(Button::Next), Some(1));
    let here = p.current();
    p.press(Button::Next);
    assert_eq!(p.press(Button::Last), Some(here));
}

#[test]
fn buttons_are_found_by_id() {
    assert_eq!(button_from_id("last"), Some(Button::Last));
    assert_eq!(button_from_id("next"), Some(Button::Next));
    assert_eq!(button_from_id("Next"), None);
    assert_eq!(button_from_id("play"), None);
}

#[test]
fn listing_buttons_are_last_then_next() {
    let bs = listing_buttons();
    assert_eq!(bs.len(), 2);
    assert_eq!(bs[0].button, Button::Last);
    assert_eq!(bs[0].custom_id, "last");
    assert_eq!(bs[0].label, "last");
    assert_eq!(bs[0].style, ButtonStyle::Primary);
    assert_eq!(bs[1].button, Button::Next);
    assert_eq!(bs[1].custom_id, "next");
    assert_eq!(bs[1].label, "next");
    assert_eq!(bs[1].style, ButtonStyle::Primary);
    for b in &bs {
        assert_eq!(button_from_id(&b.custom_id), Some(b.button));
    }
}
