use lasangnabot::songdata::{getsongs, parse_song_data};
use lasangnabot::track::{format_duration, song_data_record, track_embed, TrackInfo};
use lasangnabot::embed::{bot_colour, Colour};

fn info(title: &str, secs: u64) -> TrackInfo {
    TrackInfo {
        title: Some(title.to_string()),
        channel: Some(format!("{} channel", title)),
        thumbnail: Some(format!("https://img/{}", title)),
        source_url: Some(format!("https://yt/{}", title)),
        duration_secs: Some(secs),
    }
}

#[test]
fn format_duration_writes_minutes_and_two_digit_seconds() {
    assert_eq!(format_duration(0), "0:00");
    assert_eq!(format_duration(7), "0:07");
    assert_eq!(format_duration(67), "1:07");
    assert_eq!(format_duration(600), "10:00");
    assert_eq!(format_duration(7500), "125:00");
    assert_eq!(format_duration(3599), "59:59");
}

#[test]
fn song_data_record_writes_five_lines() {
    let rec = song_data_record(&info("Song", 125));
    assert_eq!(rec, "Song\nhttps://yt/Song\nhttps://img/Song\n125\nSong channel\n");
}

#[test]
fn song_data_record_keeps_the_seconds_in_decimal() {
    let rec = song_data_record(&info("S", 0));
    assert_eq!(rec, "S\nhttps://yt/S\nhttps://img/S\n0\nS channel\n");
    let rec = song_data_record(&info("S", 3600));
    assert_eq!(rec.lines().nth(3), Some("3600"));
}

#[test]
fn a_saved_song_reads_back() {
    let rec = song_data_record(&info("Song", 42));
    let appended = format!("{}other\nlines\n", rec);
    for text in [rec.clone(), appended] {
        let s = parse_song_data(&text).unwrap();
        assert_eq!(s.title, "Song");
        assert_eq!(s.url, "https://yt/Song");
        assert_eq!(s.thumbnail, "https://img/Song");
        assert_eq!(s.duration, "42");
        assert_eq!(s.channel, "Song channel");
    }
}

#[test]
fn a_data_file_of_four_lines_holds_no_song() {
    assert!(parse_song_data("a\nb\nc\nd\n").is_none());
    assert!(parse_song_data("a\nb\nc\nd\ne").is_some());
}

#[test]
fn getsongs_passes_over_unopened_files() {
    let a = song_data_record(&info("A", 1));
    let b = song_data_record(&info("B", 2));
    let songs = getsongs(&vec![Some(a.clone()), None, Some(b.clone())]);
    assert_eq!(songs.len(), 2);
    assert_eq!(songs[0].title, "A");
    assert_eq!(songs[0].url, "https://yt/A");
    assert_eq!(songs[1].title, "B");
    assert_eq!(songs[1].duration, "2");
    assert!(getsongs(&vec![None, None]).is_empty());
    assert!(getsongs(&vec![]).is_empty());
}

#[test]
fn colour_gives_back_its_components() {
    let c = Colour::from_rgb(149, 8, 2);
    assert_eq!(c.r(), 149);
    assert_eq!(c.g(), 8);
    assert_eq!(c.b(), 2);
    assert_eq!(c.tuple(), (149, 8, 2));
    assert_eq!(bot_colour(), Colour(0x950802));
    assert_eq!(Colour::from_rgb(1, 2, 3).0, 0x010203);
}

#[test]
fn track_embed_shows_the_track() {
    let e = track_embed(&info("T", 185)).unwrap();
    assert_eq!(e.title, "T");
    assert_eq!(e.description.as_deref(), Some("T channel"));
    assert_eq!(e.url.as_deref(), Some("https://yt/T"));
    assert_eq!(e.thumbnail.as_deref(), Some("https://img/T"));
    assert_eq!(e.colour, Some(bot_colour()));
    assert_eq!(e.fields.len(), 1);
    assert_eq!(e.fields[0].name, "duration: ");
    assert_eq!(e.fields[0].value, "3:05");
    assert!(!e.fields[0].inline);
    let mut t = info("T", 1);
    t.channel = None;
    assert!(track_embed(&t).is_none());
}

#[test]
fn durations_read_back_as_their_seconds() {
    for secs in [0u64, 5, 59, 60, 185, 3599, 3600, 7505] {
        let text = format_duration(secs);
        let (m, t) = text.split_once(':').unwrap();
        assert_eq!(t.len(), 2);
        let m: u64 = m.parse().unwrap();
        let t: u64 = t.parse().unwrap();
        assert!(t < 60);
        assert_eq!(m * 60 + t, secs);
    }
    assert_eq!(format_duration(185), "3:05");
    assert_eq!(format_duration(3600), "60:00");
}

#[test]
fn songs_of_fewer_entries_are_a_prefix() {
    let files: Vec<Option<String>> = vec![
        Some(song_data_record(&info("A", 1))),
        None,
        Some(song_data_record(&info("B", 2))),
        Some(song_data_record(&info("C", 3))),
    ];
    let all = getsongs(&files);
    for k in 0..=files.len() {
        let some = getsongs(&files[..k].to_vec());
        let opened = files[..k].iter().filter(|f| f.is_some()).count();
        assert_eq!(some.len(), opened);
        for (a, b) in some.iter().zip(all.iter()) {
            assert_eq!(a.title, b.title);
        }
    }
}
