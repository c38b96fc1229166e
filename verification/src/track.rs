use vstd::prelude::*;

use crate::embed::{bot_colour, field, field_view, spec_rgb, Colour, Embed, EmbedField};
use crate::text::{chars_value, decimal, digit_char, lemma_decimal_value, push_char, push_decimal};

verus! {

/// What the player knows of a track: the fields of its metadata that the
/// bot shows or stores. The duration is in whole seconds.
#[derive(Clone, Debug)]
pub struct TrackInfo {
    pub title: Option<String>,
    pub channel: Option<String>,
    pub thumbnail: Option<String>,
    pub source_url: Option<String>,
    pub duration_secs: Option<u64>,
}

impl TrackInfo {
    /// Every field the bot shows of a track is known.
    pub open spec fn complete(self) -> bool {
        &&& self.title is Some
        &&& self.channel is Some
        &&& self.thumbnail is Some
        &&& self.source_url is Some
        &&& self.duration_secs is Some
    }
}

/// A number below 100 written with two digits, as `{:02}` writes it.
pub open spec fn two_digits(n: nat) -> Seq<char> {
    if n < 10 {
        seq!['0'] + decimal(n)
    } else {
        decimal(n)
    }
}

/// A duration in seconds written as minutes, a colon and two digits of
/// seconds: `3:07`, `125:00`.
pub open spec fn duration_text(secs: nat) -> Seq<char> {
    decimal(secs / 60) + seq![':'] + two_digits(secs % 60)
}

/// Writes a duration as minutes and seconds, `m:ss`.
pub fn format_duration(secs: u64) -> (s: String)
    ensures
        s@ == duration_text(secs as nat),
{
    let minutes: u64 = secs / 60;
    let seconds: u64 = secs - minutes * 60;
    assert(seconds == secs % 60);
    let mut s = String::new();
    push_decimal(&mut s, minutes);
    push_char(&mut s, ':');
    if seconds < 10 {
        push_char(&mut s, '0');
    }
    push_decimal(&mut s, seconds);
    assert(s@ =~= duration_text(secs as nat));
    s
}

/// A written duration reads back as the seconds it was written from: the
/// minutes in digits, a colon, and exactly two digits of seconds below 60,
/// with minutes times 60 plus seconds the whole duration.
pub proof fn lemma_duration_reads_back(secs: nat)
    ensures
        ({
            let m = decimal(secs / 60);
            let t = two_digits(secs % 60);
            &&& duration_text(secs) == m + seq![':'] + t
            &&& m.len() > 0
            &&& forall|i: int| 0 <= i < m.len() ==> '0' <= #[trigger] m[i] <= '9'
            &&& t.len() == 2
            &&& '0' <= t[0] <= '9' && '0' <= t[1] <= '9'
            &&& chars_value(t) == secs % 60
            &&& chars_value(t) < 60
            &&& chars_value(m) * 60 + chars_value(t) == secs
        }),
{
    let b: nat = secs % 60;
    lemma_decimal_value(secs / 60);
    lemma_decimal_value(b);
    let t = two_digits(b);
    if b < 10 {
        assert(t =~= seq!['0', digit_char(b)]);
        assert(t.drop_last() =~= seq!['0']);
        assert(seq!['0'].drop_last() =~= Seq::<char>::empty());
        assert('0' as int == 48);
        assert(chars_value(Seq::<char>::empty()) == 0);
        assert(seq!['0'].last() == '0');
        assert(chars_value(seq!['0']) == 0);
        assert(digit_char(b) as int == b + 48);
    } else {
        assert(b / 10 < 10);
        assert(decimal(b / 10).len() == 1);
        assert(decimal(b).len() == 2);
    }
    assert(secs == (secs / 60) * 60 + secs % 60);
}

/// `text` is a duration of `secs` seconds written as minutes and seconds:
/// one or more digits, a colon and two digits, the two digits below 60, and
/// the minutes times 60 plus the seconds making `secs`.
pub open spec fn reads_as_duration(text: Seq<char>, secs: nat) -> bool {
    exists|m: Seq<char>, t: Seq<char>|
        #![trigger chars_value(m), chars_value(t)]
        {
            &&& text == m + seq![':'] + t
            &&& m.len() > 0
            &&& forall|i: int| 0 <= i < m.len() ==> '0' <= #[trigger] m[i] <= '9'
            &&& t.len() == 2
            &&& '0' <= t[0] <= '9' && '0' <= t[1] <= '9'
            &&& chars_value(t) < 60
            &&& chars_value(m) * 60 + chars_value(t) == secs
        }
}

/// The written duration of `secs` seconds reads back as `secs`.
pub proof fn lemma_duration_text_reads(secs: nat)
    ensures
        reads_as_duration(duration_text(secs), secs),
{
    lemma_duration_reads_back(secs);
    let m = decimal(secs / 60);
    let t = two_digits(secs % 60);
    assert(chars_value(m) * 60 + chars_value(t) == secs);
}

/// The embed that shows a track: its title, its channel as the description,
/// its duration in a field, its thumbnail and a link to it, in the bot's colour.
pub open spec fn is_track_embed(e: Embed, info: TrackInfo) -> bool {
    &&& e.title@ == info.title->0@
    &&& e.description.deep_view() == Some(info.channel->0@)
    &&& e.colour == Some(Colour(spec_rgb(149, 8, 2)))
    &&& e.url.deep_view() == Some(info.source_url->0@)
    &&& e.thumbnail.deep_view() == Some(info.thumbnail->0@)
    &&& e.image is None
    &&& e.fields@.len() == 1
    &&& field_view(e.fields@[0]) == ("duration: "@, duration_text(info.duration_secs->0 as nat), false)
}

/// The duration a track's embed shows reads back as the track's whole
/// length, in minutes and two-digit seconds.
pub proof fn lemma_track_embed_duration(e: Embed, info: TrackInfo)
    requires
        is_track_embed(e, info),
        info.complete(),
    ensures
        e.fields@.len() == 1,
        e.fields@[0].name@ == "duration: "@,
        reads_as_duration(e.fields@[0].value@, info.duration_secs->0 as nat),
{
    lemma_duration_text_reads(info.duration_secs->0 as nat);
}

/// The embed that shows a track, or `None` when the metadata lacks one of the
/// fields it shows.
pub fn track_embed(info: &TrackInfo) -> (e: Option<Embed>)
    ensures
        e is Some <==> info.complete(),
        e matches Some(e) ==> is_track_embed(e, *info),
        e matches Some(e) ==> reads_as_duration(e.fields@[0].value@, info.duration_secs->0 as nat),
{
    match (&info.title, &info.channel, &info.thumbnail, &info.source_url, info.duration_secs) {
        (Some(title), Some(channel), Some(thumbnail), Some(url), Some(secs)) => {
            let mut fields: Vec<EmbedField> = Vec::new();
            let d = format_duration(secs);
            proof {
                lemma_duration_text_reads(secs as nat);
            }
            fields.push(field(String::from_str("duration: "), d));
            Some(Embed {
                title: title.clone(),
                description: Some(channel.clone()),
                colour: Some(bot_colour()),
                url: Some(url.clone()),
                thumbnail: Some(thumbnail.clone()),
                image: None,
                fields,
            })
        },
        _ => None,
    }
}

/// The lines of a favourite's data file: title, link, thumbnail, duration in
/// seconds and channel, each ended by a newline.
pub open spec fn song_record(
    title: Seq<char>,
    url: Seq<char>,
    thumbnail: Seq<char>,
    secs: nat,
    channel: Seq<char>,
) -> Seq<char> {
    title.push('\n') + url.push('\n') + thumbnail.push('\n') + decimal(secs).push('\n') + channel.push(
        '\n',
    )
}

/// The data file that saves a track to the favourites; every field it holds
/// must be known.
pub fn song_data_record(info: &TrackInfo) -> (rec: String)
    requires
        info.complete(),
    ensures
        rec@ == song_record(
            info.title->0@,
            info.source_url->0@,
            info.thumbnail->0@,
            info.duration_secs->0 as nat,
            info.channel->0@,
        ),
{
    match (&info.title, &info.channel, &info.thumbnail, &info.source_url, info.duration_secs) {
        (Some(title), Some(channel), Some(thumbnail), Some(url), Some(secs)) => {
            let mut r = String::new();
            r.append(title.as_str());
            push_char(&mut r, '\n');
            r.append(url.as_str());
            push_char(&mut r, '\n');
            r.append(thumbnail.as_str());
            push_char(&mut r, '\n');
            push_decimal(&mut r, secs);
            push_char(&mut r, '\n');
            r.append(channel.as_str());
            push_char(&mut r, '\n');
            assert(r@ =~= song_record(title@, url@, thumbnail@, secs as nat, channel@));
            r
        },
        _ => vstd::pervasive::unreached(),
    }
}

} // verus!
