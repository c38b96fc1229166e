use rand::Rng;
use vstd::prelude::*;

use crate::embed::{bot_colour, field, field_view, fields_view, spec_rgb, Colour, Embed, EmbedField};

verus! {

/// A number drawn at random below `n` with `rand::Rng::gen_range(0..n)` on
/// `rand::thread_rng()`. The draw depends on chance: the contract claims only
/// that it lies below `n`, as `gen_range` samples from the range it is given.
/// `gen_range` panics on an empty range, so `n` must be positive.
#[verifier::external_body]
pub(crate) fn random_below(n: usize) -> (r: usize)
    requires
        n > 0,
    ensures
        r < n,
{
    rand::thread_rng().gen_range(0..n)
}

/// The quote at place `r` among all lines of the quotes file but the last,
/// or `None` when there is no such line.
pub fn quote_at(lines: &Vec<String>, r: usize) -> (q: Option<String>)
    ensures
        q is Some <==> (lines@.len() >= 2 && r < lines@.len() - 1),
        q matches Some(q) ==> q@ == lines@[r as int]@,
{
    if lines.len() >= 2 && r < lines.len() - 1 {
        Some(lines[r].clone())
    } else {
        None
    }
}

/// `dad`: a quote drawn at random from the lines of the quotes file, the
/// last line left out. The file holds at least two lines, so that there is a
/// quote to draw, and at most `i32::MAX`.
pub fn dad(lines: &Vec<String>) -> (q: String)
    requires
        2 <= lines@.len() <= 0x7fff_ffff,
    ensures
        exists|r: int| 0 <= r < lines@.len() - 1 && q@ == #[trigger] lines@[r]@,
{
    let r = random_below(lines.len() - 1);
    match quote_at(lines, r) {
        Some(q) => q,
        None => vstd::pervasive::unreached(),
    }
}

/// The commands the help lists under "Voice Commands", with what each does.
pub open spec fn voice_help() -> Seq<(Seq<char>, Seq<char>)> {
    seq![
        ("join"@, "Join voice channel. Required to use voice functionality, must be in a voice channel to use."@),
        ("leave"@, "Disconnect the bot from the current voice channel, must be in a voice channel to use."@),
        ("play"@, "Search YouTube for a song using a provided argument. For example. '$play a song' will search youtube for 'a song'. Must be in a voice channel to use."@),
        ("skip"@, "Skip the current song, must be in a voice channel to use."@),
        ("stop"@, "Stop playing and clear the queue, must be in a voice channel to use"@),
        ("playing"@, "Get information from current song, must be in a voice channel to use."@),
        ("queue"@, "Get the current queue."@),
    ]
}

/// The commands the help lists under "Favorites Commands", with what each does.
pub open spec fn favorites_help() -> Seq<(Seq<char>, Seq<char>)> {
    seq![
        ("addfav"@, "Add the current song to favorites, must be in a voice channel to use."@),
        ("addfav"@, "remove a song from favorites"@),
        ("favs"@, "List the server's favorited songs."@),
        ("playfav"@, "Creates a dropdown menu of favorites, select a song to play it. Must me in a voice channel to use."@),
        ("playfavat"@, "Play a song, using the index of the song from the 'favs' command as an argument. For example, '$playfavat 4' will play the fourth song on the favorites list. Must be in a voice channel to use."@),
        ("randfav"@, "Play a random song from the server's favorites, must be in a voice channel to use."@),
    ]
}

/// The help embed with the heading `title` that lists `entries`.
pub open spec fn is_help_embed(e: Embed, title: Seq<char>, entries: Seq<(Seq<char>, Seq<char>)>) -> bool {
    &&& e.title@ == title
    &&& e.description is None
    &&& e.colour == Some(Colour(spec_rgb(149, 8, 2)))
    &&& e.url is None
    &&& e.thumbnail is None
    &&& e.image is None
    &&& fields_view(e.fields@) == entries.map_values(|p: (Seq<char>, Seq<char>)| (p.0, p.1, false))
}

fn help_embed(title: &str, names: &Vec<&str>, texts: &Vec<&str>) -> (e: Embed)
    requires
        names@.len() == texts@.len(),
    ensures
        e.title@ == title@,
        e.description is None,
        e.colour == Some(Colour(spec_rgb(149, 8, 2))),
        e.url is None,
        e.thumbnail is None,
        e.image is None,
        fields_view(e.fields@) == Seq::new(names@.len(), |i: int| (names@[i]@, texts@[i]@, false)),
{
    let mut fields: Vec<EmbedField> = Vec::new();
    let mut i: usize = 0;
    while i < names.len()
        invariant
            i <= names@.len() == texts@.len(),
            fields_view(fields@) == Seq::new(i as nat, |j: int| (names@[j]@, texts@[j]@, false)),
        decreases names@.len() - i,
    {
        let ghost before = fields@;
        let f = field(String::from_str(names[i]), String::from_str(texts[i]));
        fields.push(f);
        assert(fields_view(fields@) =~= fields_view(before).push(field_view(f)));
        assert(fields_view(fields@) =~= Seq::new((i + 1) as nat, |j: int| (names@[j]@, texts@[j]@, false)));
        i = i + 1;
    }
    Embed {
        title: String::from_str(title),
        description: None,
        colour: Some(bot_colour()),
        url: None,
        thumbnail: None,
        image: None,
        fields,
    }
}

/// `help`: two embeds, the voice commands and then the favourites commands,
/// each command with what it does.
pub fn help() -> (es: Vec<Embed>)
    ensures
        es@.len() == 2,
        is_help_embed(es@[0], "Voice Commands"@, voice_help()),
        is_help_embed(es@[1], "Favorites Commands"@, favorites_help()),
{
    let names = vec!["join", "leave", "play", "skip", "stop", "playing", "queue"];
    let texts = vec![
        "Join voice channel. Required to use voice functionality, must be in a voice channel to use.",
        "Disconnect the bot from the current voice channel, must be in a voice channel to use.",
        "Search YouTube for a song using a provided argument. For example. '$play a song' will search youtube for 'a song'. Must be in a voice channel to use.",
        "Skip the current song, must be in a voice channel to use.",
        "Stop playing and clear the queue, must be in a voice channel to use",
        "Get information from current song, must be in a voice channel to use.",
        "Get the current queue.",
    ];
    let voice = help_embed("Voice Commands", &names, &texts);
    assert(fields_view(voice.fields@) =~= voice_help().map_values(
        |p: (Seq<char>, Seq<char>)| (p.0, p.1, false),
    ));
    let names = vec!["addfav", "addfav", "favs", "playfav", "playfavat", "randfav"];
    let texts = vec![
        "Add the current song to favorites, must be in a voice channel to use.",
        "remove a song from favorites",
        "List the server's favorited songs.",
        "Creates a dropdown menu of favorites, select a song to play it. Must me in a voice channel to use.",
        "Play a song, using the index of the song from the 'favs' command as an argument. For example, '$playfavat 4' will play the fourth song on the favorites list. Must be in a voice channel to use.",
        "Play a random song from the server's favorites, must be in a voice channel to use.",
    ];
    let favorites = help_embed("Favorites Commands", &names, &texts);
    assert(fields_view(favorites.fields@) =~= favorites_help().map_values(
        |p: (Seq<char>, Seq<char>)| (p.0, p.1, false),
    ));
    let mut es: Vec<Embed> = Vec::new();
    es.push(voice);
    es.push(favorites);
    es
}

} // verus!
