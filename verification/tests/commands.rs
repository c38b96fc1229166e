use lasangnabot::embed::{bot_colour, Response};
use lasangnabot::guildfiles::{
    data_file, delfav, guild_not_found, favorite_search_text, favorites_dir, playfavat, removed_favorite, selection_notice,
    timed_out, FavStep,
};
use lasangnabot::images::{e621, fetch_failed, image_embed, post_image, search_tags, ImageError, POST_LIMIT};
use lasangnabot::misc::{dad, help, quote_at};
use lasangnabot::track::{track_embed, TrackInfo};
use lasangnabot::voice::{enqueue_found, play, play_query, playing, searching_message, skip, stop, Action};
use lasangnabot::general::ping;
use lasangnabot::{Command, General};

fn said(r: &Response) -> &str {
    match r {
        Response::Say(s) => s,
        _ => panic!("expected a plain message"),
    }
}

fn track() -> TrackInfo {
    TrackInfo {
        title: Some("T".into()),
        channel: Some("C".into()),
        thumbnail: Some("th".into()),
        source_url: Some("u".into()),
        duration_secs: Some(61),
    }
}

#[test]
fn skip_answers() {
    let o = skip(false, false);
    assert_eq!(o.action, Action::Nothing);
    assert_eq!(said(&o.response), "Must be in a voice channel to use that command!");
    let o = skip(true, true);
    assert_eq!(o.action, Action::Nothing);
    assert_eq!(said(&o.response), "The queue is empty!");
    let o = skip(true, false);
    assert_eq!(o.action, Action::Skip);
    assert_eq!(said(&o.response), "Song skipped!");
}

#[test]
fn stop_answers() {
    let o = stop(true);
    assert_eq!(o.action, Action::Stop);
    assert_eq!(said(&o.response), "Queue cleared.");
    let o = stop(false);
    assert_eq!(o.action, Action::Nothing);
    assert_eq!(said(&o.response), "Must be in a voice channel to use that command!");
}

#[test]
fn playing_answers() {
    let t = track();
    let o = playing(true, Some(&t));
    match o.response {
        Response::Card(c, e) => {
            assert_eq!(c, "Current song:");
            assert_eq!(e.title, "T");
            assert_eq!(e.fields[0].value, "1:01");
        }
        _ => panic!("expected a card"),
    }
    assert_eq!(said(&playing(true, None).response), "Nothing is being played!");
    assert_eq!(said(&playing(false, None).response), "Must be in a voice channel to use that command!");
    let mut bad = track();
    bad.title = None;
    assert!(track_embed(&bad).is_none());
    assert_eq!(said(&playing(false, Some(&bad)).response), "Must be in a voice channel to use that command!");
}

#[test]
fn play_answers() {
    assert_eq!(play_query("$play never gonna"), Some(" never gonna"));
    assert_eq!(play_query("$pl"), None);
    assert_eq!(searching_message(" never gonna"), "searching YouTube for never gonna...");
    let t = track();
    let o = play(true, Some(&t));
    assert_eq!(o.action, Action::Enqueue);
    match o.response {
        Response::Card(c, e) => {
            assert_eq!(c, "Added to queue:");
            assert_eq!(e.colour, Some(bot_colour()));
        }
        _ => panic!("expected a card"),
    }
    let o = play(true, None);
    assert_eq!(o.action, Action::Nothing);
    assert_eq!(said(&o.response), "Error sourcing ffmpeg");
    let o = play(false, Some(&t));
    assert_eq!(said(&o.response), "Must be in a voice channel to use that command!");
    let o = enqueue_found(None, Response::Quiet);
    assert!(matches!(o.response, Response::Quiet));
}

#[test]
fn delfav_answers() {
    let tell = |s: FavStep| match s {
        FavStep::Tell(t) => t,
        other => panic!("expected a reply, got {:?}", other),
    };
    assert_eq!(tell(delfav(0, "$delfav 1")), "No songs are saved to favorites!");
    assert_eq!(tell(delfav(0, "")), "No songs are saved to favorites!");
    assert!(matches!(delfav(3, "$delfav 3"), FavStep::Go(2)));
    assert!(matches!(delfav(3, "$delfav 1"), FavStep::Go(0)));
    assert_eq!(tell(delfav(3, "$delfav 4")), "not a valid index!");
    assert_eq!(tell(delfav(3, "$delfav 0")), "not a valid index!");
    assert_eq!(tell(delfav(3, "$delfav x")), "not a valid index!");
    assert!(matches!(delfav(1, "$delfav 1"), FavStep::Go(0)));
    assert_eq!(tell(delfav(3, "$delfav ")), "not a valid index!");
    assert_eq!(removed_favorite(), "removed song from favorites");
    assert_eq!(guild_not_found(), "unable to find guild");
}

#[test]
fn playfavat_answers() {
    let tell = |s: FavStep| match s {
        FavStep::Tell(t) => t,
        other => panic!("expected a reply, got {:?}", other),
    };
    assert!(matches!(playfavat("$playfavat 2", 3, true), FavStep::Go(1)));
    assert_eq!(tell(playfavat("$playfavat 4", 3, true)), "not a valid track!");
    assert_eq!(tell(playfavat("$playfavat 0", 3, true)), "not a valid track!");
    assert_eq!(tell(playfavat("$playfavat 2", 0, true)), "No songs are saved to favorites!");
    assert_eq!(tell(playfavat("$playfavat 2", 3, false)), "Must be in a voice channel to use that command!");
    assert_eq!(tell(playfavat("$playfavat -1", 3, false)), "Must be in a voice channel to use that command!");
    assert!(matches!(playfavat("$playfavat 3", 3, true), FavStep::Go(2)));
    assert_eq!(tell(playfavat("$playfavat -1", 0, true)), "No songs are saved to favorites!");
}

#[test]
fn favourite_files_and_texts() {
    assert_eq!(favorite_search_text("Title\nhttps://example.com/v\nthumb\n1\nchan\n"), "https://example.com/v");
    assert_eq!(favorite_search_text("Title\r\nurl\r\n"), "url");
    assert_eq!(favorites_dir(1234), "./guild_files/1234");
    assert_eq!(data_file("./guild_files/1/abc"), "./guild_files/1/abc/data.txt");
    assert_eq!(selection_notice(), "playing selection...");
    assert_eq!(timed_out(), "Timed out");
}

#[test]
fn dad_never_quotes_the_last_line() {
    let lines: Vec<String> = vec!["a".into(), "b".into(), "c".into()];
    for _ in 0..50 {
        let q = dad(&lines);
        assert!(q == "a" || q == "b");
    }
    assert_eq!(dad(&vec!["x".into(), "last".into()]), "x");
    assert_eq!(quote_at(&lines, 1).as_deref(), Some("b"));
    assert_eq!(quote_at(&lines, 2), None);
}

#[test]
fn help_lists_the_commands() {
    let es = help();
    assert_eq!(es.len(), 2);
    assert_eq!(es[0].title, "Voice Commands");
    assert_eq!(es[0].fields.len(), 7);
    assert_eq!(es[0].fields[6].name, "queue");
    assert_eq!(es[0].fields[6].value, "Get the current queue.");
    assert_eq!(es[1].title, "Favorites Commands");
    assert_eq!(es[1].fields.len(), 6);
    assert_eq!(es[1].fields[1].name, "addfav");
    assert_eq!(es[1].fields[1].value, "remove a song from favorites");
    assert_eq!(es[1].colour, Some(bot_colour()));
}

#[test]
fn post_images_are_normalised_urls() {
    assert_eq!(post_image(Some("HTTPS://Example.COM/a b.png")), Ok("https://example.com/a%20b.png".to_string()));
    assert_eq!(post_image(Some("not a url")), Err(ImageError::Unparsable));
    assert_eq!(post_image(None), Err(ImageError::Missing));
}

#[test]
fn e621_draws_from_the_links() {
    let urls: Vec<String> = (0..300).map(|i| format!("https://x/{}", i)).collect();
    let e = e621(&urls, "me#1").unwrap();
    assert_eq!(e.title, "shut the fuck up me#1");
    let img = e.image.unwrap();
    let k: usize = img["https://x/".len()..].parse().unwrap();
    assert!(k < 299);
    assert!(e621(&vec![], "me#1").is_none());
    assert_eq!(image_embed(&urls, 7, "a").unwrap().image.as_deref(), Some("https://x/7"));
    assert!(image_embed(&urls, 300, "a").is_none());
    assert_eq!(search_tags(), vec!["-flash", "-webm", "-child", "rating:s"]);
    assert_eq!(POST_LIMIT, 300);
    assert_eq!(fetch_failed(), "unable to source image");
}

#[test]
fn commands_are_found_by_name() {
    for c in General::commands() {
        let name = format!("{:?}", c).to_lowercase();
        assert_eq!(General::find(&name), Some(c));
    }
    assert_eq!(General::commands().len(), 12);
    assert_eq!(General::find("delfav"), None);
    assert_eq!(General::find("Ping"), None);
    assert_eq!(General::find("ping"), Some(Command::Ping));
    assert_eq!(ping(), "pong!");
}
