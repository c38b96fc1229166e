use vstd::prelude::*;

use crate::embed::{bot_colour, field, field_view, fields_view, spec_rgb, Colour, Embed, EmbedField};
use crate::songdata::{Song, SongText};
use crate::track::{duration_text, format_duration, TrackInfo};
use crate::text::{decimal, push_char, push_decimal};

verus! {

/// How many songs one page of a listing shows.
pub const PAGE_SIZE: usize = 10;

/// A track waiting in the voice queue, as the queue listing shows it; the
/// duration is already written as `m:ss`.
#[derive(Clone, Debug)]
pub struct QueueSong {
    pub title: String,
    pub url: String,
    pub channel: String,
    pub duration: String,
}

/// The queue entry of a track, or `None` when its metadata lacks the title,
/// the link, the channel or the duration.
pub fn queue_song(info: &TrackInfo) -> (s: Option<QueueSong>)
    ensures
        s is Some <==> (info.title is Some && info.source_url is Some && info.channel is Some
            && info.duration_secs is Some),
        s matches Some(s) ==> {
            &&& s.title@ == info.title->0@
            &&& s.url@ == info.source_url->0@
            &&& s.channel@ == info.channel->0@
            &&& s.duration@ == duration_text(info.duration_secs->0 as nat)
        },
{
    match (&info.title, &info.source_url, &info.channel, info.duration_secs) {
        (Some(title), Some(url), Some(channel), Some(secs)) => Some(
            QueueSong {
                title: title.clone(),
                url: url.clone(),
                channel: channel.clone(),
                duration: format_duration(secs),
            },
        ),
        _ => None,
    }
}

/// The field name of the `k`-th entry (counted from zero) of a listing:
/// its number from one, a dot and a space, then `rest`.
pub open spec fn numbered(k: nat, rest: Seq<char>) -> Seq<char> {
    decimal(k + 1) + seq!['.', ' '] + rest
}

/// The fields of the queue listing, one per track: its number, title and
/// channel as the name, its duration as the value.
pub open spec fn queue_field(k: nat, title: Seq<char>, channel: Seq<char>, duration: Seq<char>) -> (
    Seq<char>,
    Seq<char>,
    bool,
) {
    (numbered(k, title + seq![' ', '|', ' '] + channel), duration, false)
}

/// The fields of the favourites listing, one per song: its number and title
/// as the name, its channel as the value.
pub open spec fn favs_field(k: nat, s: SongText) -> (Seq<char>, Seq<char>, bool) {
    (numbered(k, s.title), s.channel, false)
}

/// A queue field is named by the entry's number counted from one, a dot and
/// a space, the whole title, " | " and the whole channel; its value is the
/// duration, and it does not stand inline.
pub proof fn lemma_queue_field_text(k: nat, title: Seq<char>, channel: Seq<char>, duration: Seq<char>)
    ensures
        queue_field(k, title, channel, duration) == (decimal(k + 1) + ". "@ + title + " | "@ + channel, duration, false),
{
    reveal_strlit(". ");
    reveal_strlit(" | ");
    assert(decimal(k + 1) + seq!['.', ' '] + (title + seq![' ', '|', ' '] + channel) =~= decimal(k + 1) + ". "@ + title + " | "@ + channel);
}

/// A favourites field is named by the entry's number counted from one, a dot
/// and a space, and the song's whole title; its value is the song's channel,
/// and it does not stand inline.
pub proof fn lemma_favs_field_text(k: nat, s: SongText)
    ensures
        favs_field(k, s) == (decimal(k + 1) + ". "@ + s.title, s.channel, false),
{
    reveal_strlit(". ");
    assert(decimal(k + 1) + seq!['.', ' '] + s.title =~= decimal(k + 1) + ". "@ + s.title);
}

pub(crate) fn numbered_name(k: usize, a: &str, sep: bool, b: &str) -> (s: String)
    requires
        k < usize::MAX,
    ensures
        sep ==> s@ == numbered(k as nat, a@ + seq![' ', '|', ' '] + b@),
        !sep ==> s@ == numbered(k as nat, a@),
{
    let mut s = String::new();
    push_decimal(&mut s, (k + 1) as u64);
    push_char(&mut s, '.');
    push_char(&mut s, ' ');
    s.append(a);
    if sep {
        push_char(&mut s, ' ');
        push_char(&mut s, '|');
        push_char(&mut s, ' ');
        s.append(b);
        assert(s@ =~= numbered(k as nat, a@ + seq![' ', '|', ' '] + b@));
    } else {
        assert(s@ =~= numbered(k as nat, a@));
    }
    s
}

/// The fields that list the queue.
pub fn queue_fields(songs: &Vec<QueueSong>) -> (fs: Vec<EmbedField>)
    ensures
        fs@.len() == songs@.len(),
        forall|k: int| 0 <= k < songs@.len() ==> fields_view(fs@)[k] == queue_field(k as nat, #[trigger] songs@[k].title@, songs@[k].channel@, songs@[k].duration@),
{
    let mut fs: Vec<EmbedField> = Vec::new();
    let mut k: usize = 0;
    while k < songs.len()
        invariant
            k <= songs@.len(),
            fs@.len() == k,
            forall|j: int| 0 <= j < k ==> fields_view(fs@)[j] == queue_field(j as nat, #[trigger] songs@[j].title@, songs@[j].channel@, songs@[j].duration@),
        decreases songs@.len() - k,
    {
        let s = &songs[k];
        let name = numbered_name(k, s.title.as_str(), true, s.channel.as_str());
        fs.push(field(name, s.duration.clone()));
        k = k + 1;
    }
    fs
}

/// The fields that list the favourites.
pub fn favs_fields(songs: &Vec<Song>) -> (fs: Vec<EmbedField>)
    ensures
        fs@.len() == songs@.len(),
        forall|k: int| 0 <= k < songs@.len() ==> fields_view(fs@)[k] == favs_field(k as nat, #[trigger] songs@[k]@),
{
    let mut fs: Vec<EmbedField> = Vec::new();
    let mut k: usize = 0;
    while k < songs.len()
        invariant
            k <= songs@.len(),
            fs@.len() == k,
            forall|j: int| 0 <= j < k ==> fields_view(fs@)[j] == favs_field(j as nat, #[trigger] songs@[j]@),
        decreases songs@.len() - k,
    {
        let s = &songs[k];
        let name = numbered_name(k, s.title.as_str(), false, "");
        fs.push(field(name, s.channel.clone()));
        k = k + 1;
    }
    fs
}

/// How many pages a listing of `n` entries takes.
pub open spec fn page_count(n: nat) -> nat {
    if n % 10 == 0 {
        n / 10
    } else {
        n / 10 + 1
    }
}

/// The entries shown on page `p` (counted from zero): ten of them, or what
/// is left for the last page.
pub open spec fn page_entries<T>(entries: Seq<T>, p: int) -> Seq<T> {
    let lo: int = 10 * p;
    let hi: int = if 10 * p + 10 <= entries.len() { 10 * p + 10 } else { entries.len() as int };
    entries.subrange(lo, hi)
}

/// A page of a listing: its heading, thumbnail and description, in the
/// bot's colour, with the given fields.
pub open spec fn is_listing_page(
    e: Embed,
    title: Seq<char>,
    thumbnail: Seq<char>,
    description: Seq<char>,
    fields: Seq<(Seq<char>, Seq<char>, bool)>,
) -> bool {
    &&& e.title@ == title
    &&& e.description.deep_view() == Some(description)
    &&& e.colour == Some(Colour(spec_rgb(149, 8, 2)))
    &&& e.url is None
    &&& e.thumbnail.deep_view() == Some(thumbnail)
    &&& e.image is None
    &&& fields_view(e.fields@) == fields
}

fn listing_page(title: &str, thumbnail: &str, description: &str, fields: &Vec<EmbedField>, lo: usize, hi: usize) -> (e: Embed)
    requires
        lo <= hi <= fields@.len(),
    ensures
        is_listing_page(e, title@, thumbnail@, description@, fields_view(fields@).subrange(lo as int, hi as int)),
{
    let mut fs: Vec<EmbedField> = Vec::new();
    let mut k: usize = lo;
    while k < hi
        invariant
            lo <= k <= hi <= fields@.len(),
            fields_view(fs@) == fields_view(fields@).subrange(lo as int, k as int),
        decreases hi - k,
    {
        let f = &fields[k];
        let g = EmbedField { name: f.name.clone(), value: f.value.clone(), inline: f.inline };
        let ghost before = fs@;
        assert(field_view(g) == field_view(fields@[k as int]));
        fs.push(g);
        assert(fs@ == before.push(g));
        assert(fields_view(fs@) =~= fields_view(before).push(field_view(g)));
        assert(fields_view(fields@).subrange(lo as int, k + 1) =~= fields_view(fields@).subrange(
            lo as int,
            k as int,
        ).push(fields_view(fields@)[k as int]));
        k = k + 1;
    }
    Embed {
        title: String::from_str(title),
        description: Some(String::from_str(description)),
        colour: Some(bot_colour()),
        url: None,
        thumbnail: Some(String::from_str(thumbnail)),
        image: None,
        fields: fs,
    }
}

/// The pages of a listing: ten fields to a page, the last page taking what
/// is left, each page with the same heading, thumbnail and description.
pub fn list_pages(title: &str, thumbnail: &str, description: &str, fields: &Vec<EmbedField>) -> (pages: Vec<Embed>)
    ensures
        pages@.len() == page_count(fields@.len()),
        forall|p: int| 0 <= p < pages@.len() ==> is_listing_page(
            #[trigger] pages@[p],
            title@,
            thumbnail@,
            description@,
            page_entries(fields_view(fields@), p),
        ),
{
    let n: usize = fields.len();
    let mut pages: Vec<Embed> = Vec::new();
    let mut lo: usize = 0;
    while lo < n
        invariant
            n == fields@.len(),
            lo <= n,
            lo % 10 == 0 || lo == n,
            pages@.len() == page_count(lo as nat),
            forall|p: int| 0 <= p < pages@.len() ==> is_listing_page(
                #[trigger] pages@[p],
                title@,
                thumbnail@,
                description@,
                page_entries(fields_view(fields@), p),
            ),
        decreases n - lo,
    {
        let hi: usize = if n - lo >= 10 { lo + 10 } else { n };
        let page = listing_page(title, thumbnail, description, fields, lo, hi);
        proof {
            assert(pages@.len() * 10 == lo);
            assert(fields_view(fields@).len() == n);
            assert(page_entries(fields_view(fields@), pages@.len() as int) == fields_view(fields@).subrange(lo as int, hi as int));
        }
        pages.push(page);
        lo = hi;
    }
    pages
}

/// The page that a listing opens on: the first ten fields, or all of them
/// when there are fewer.
pub fn first_page(title: &str, thumbnail: &str, description: &str, fields: &Vec<EmbedField>) -> (e: Embed)
    ensures
        is_listing_page(e, title@, thumbnail@, description@, page_entries(fields_view(fields@), 0)),
{
    let hi: usize = if fields.len() >= 10 { 10 } else { fields.len() };
    listing_page(title, thumbnail, description, fields, 0, hi)
}

/// Every entry of a listing is shown, and shown once: entry `k` stands on
/// page `k / 10`, at place `k % 10` of it.
pub proof fn lemma_entry_on_page<T>(entries: Seq<T>, k: int)
    requires
        0 <= k < entries.len(),
    ensures
        k / 10 < page_count(entries.len()),
        k % 10 < page_entries(entries, k / 10).len(),
        page_entries(entries, k / 10)[k % 10] == entries[k],
{
}

/// Every page of a listing holds between one and ten entries, and every page
/// but the last holds ten.
pub proof fn lemma_page_sizes<T>(entries: Seq<T>, p: int)
    requires
        0 <= p < page_count(entries.len()),
    ensures
        1 <= page_entries(entries, p).len() <= 10,
        p + 1 < page_count(entries.len()) ==> page_entries(entries, p).len() == 10,
{
}

/// What a listing command answers: a reply when there is nothing to list,
/// or the page it opens on and all its pages.
#[derive(Debug)]
pub enum Listing {
    Nothing(String),
    Pages { first: Embed, pages: Vec<Embed> },
}

} // verus!
