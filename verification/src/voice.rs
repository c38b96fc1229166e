use vstd::prelude::*;
use vstd::string::StringSliceAdditionalSpecFns;

use crate::embed::{embed_text, fields_view, says, Response};
use crate::listing::{lemma_queue_field_text, first_page, is_listing_page, list_pages, page_count, page_entries, queue_field, queue_fields, queue_song, Listing, QueueSong};
use crate::track::{duration_text, is_track_embed, track_embed, TrackInfo};
use crate::text::{decimal, push_decimal};

verus! {

/// What a voice command does to the guild's player.
#[derive(Clone, Copy, Debug, PartialEq, Eq, Structural)]
pub enum Action {
    /// Leaves the player as it is.
    Nothing,
    /// Adds the track found to the end of the queue.
    Enqueue,
    /// Skips the track playing.
    Skip,
    /// Stops playing and empties the queue.
    Stop,
}

/// What a command does to the player and what it answers.
#[derive(Debug)]
pub struct Outcome {
    pub action: Action,
    pub response: Response,
}

/// The response shows track `t` in its embed, under the line `heading`.
pub open spec fn shows_track(r: Response, heading: Seq<char>, t: TrackInfo) -> bool {
    r matches Response::Card(c, e) && c@ == heading && is_track_embed(e, t)
}

/// A track was found whose metadata lacks a field that its embed shows.
pub open spec fn found_incomplete(found: Option<&TrackInfo>) -> bool {
    match found {
        Some(t) => !t.complete(),
        None => false,
    }
}

/// The answer to a voice command given outside a voice channel.
pub open spec fn not_in_voice_text() -> Seq<char> {
    "Must be in a voice channel to use that command!"@
}

/// The answer to a voice command given outside a voice channel.
pub fn not_in_voice() -> (s: String)
    ensures
        s@ == not_in_voice_text(),
{
    String::from_str("Must be in a voice channel to use that command!")
}

/// `skip`: outside a voice channel it says so; with an empty queue it says
/// the queue is empty; else it skips the track playing and says so.
pub fn skip(in_voice: bool, queue_empty: bool) -> (o: Outcome)
    ensures
        !in_voice ==> o.action == Action::Nothing && says(o.response, not_in_voice_text()),
        in_voice && queue_empty ==> o.action == Action::Nothing && says(o.response, "The queue is empty!"@),
        in_voice && !queue_empty ==> o.action == Action::Skip && says(o.response, "Song skipped!"@),
{
    if !in_voice {
        Outcome { action: Action::Nothing, response: Response::Say(not_in_voice()) }
    } else if queue_empty {
        Outcome { action: Action::Nothing, response: Response::Say(String::from_str("The queue is empty!")) }
    } else {
        Outcome { action: Action::Skip, response: Response::Say(String::from_str("Song skipped!")) }
    }
}

/// `stop`: in a voice channel it stops playing, empties the queue and says
/// so; outside one it says it cannot.
pub fn stop(in_voice: bool) -> (o: Outcome)
    ensures
        !in_voice ==> o.action == Action::Nothing && says(o.response, not_in_voice_text()),
        in_voice ==> o.action == Action::Stop && says(o.response, "Queue cleared."@),
{
    if in_voice {
        Outcome { action: Action::Stop, response: Response::Say(String::from_str("Queue cleared.")) }
    } else {
        Outcome { action: Action::Nothing, response: Response::Say(not_in_voice()) }
    }
}

/// `playing`: in a voice channel, the track playing (`current`, `None` when
/// the queue is empty) shown in an embed under "Current song:", or a message
/// that nothing plays. In a voice channel, the metadata of the track playing
/// must hold every field the embed shows.
pub fn playing(in_voice: bool, current: Option<&TrackInfo>) -> (o: Outcome)
    requires
        in_voice ==> !found_incomplete(current),
    ensures
        o.action == Action::Nothing,
        !in_voice ==> says(o.response, not_in_voice_text()),
        in_voice ==> match current {
            None => says(o.response, "Nothing is being played!"@),
            Some(t) => shows_track(o.response, "Current song:"@, *t),
        },
{
    if !in_voice {
        return Outcome { action: Action::Nothing, response: Response::Say(not_in_voice()) };
    }
    match current {
        None => Outcome {
            action: Action::Nothing,
            response: Response::Say(String::from_str("Nothing is being played!")),
        },
        Some(t) => match track_embed(t) {
            Some(e) => Outcome {
                action: Action::Nothing,
                response: Response::Card(String::from_str("Current song:"), e),
            },
            None => vstd::pervasive::unreached(),
        },
    }
}

/// The answer when the search for a track failed.
pub fn search_failed() -> (s: String)
    ensures
        s@ == "Error sourcing ffmpeg"@,
{
    String::from_str("Error sourcing ffmpeg")
}

/// The words a `play` command searches for: what follows its first five
/// bytes (the prefix and `play`), or `None` when the message is shorter or
/// the fifth byte splits a character.
pub fn play_query(content: &str) -> (q: Option<&str>)
    ensures
        q is Some <==> vstd::utf8::is_char_boundary(content.spec_bytes(), 5),
        q matches Some(q) ==> q.spec_bytes() == content.spec_bytes().skip(5),
{
    crate::text::argument_after(content, 5)
}

/// The message `play` sends before searching.
pub fn searching_message(query: &str) -> (s: String)
    ensures
        s@ == "searching YouTube for"@ + query@ + "..."@,
{
    let mut s = String::from_str("searching YouTube for");
    s.append(query);
    s.append("...");
    s
}

/// Queues the track a search found: the embed under "Added to queue:" and
/// the track added to the queue, or, when the search failed (`found` is
/// `None`), `failure` as the answer. A track found must have every field
/// the embed shows.
pub fn enqueue_found(found: Option<&TrackInfo>, failure: Response) -> (o: Outcome)
    requires
        !found_incomplete(found),
    ensures
        match found {
            None => o.action == Action::Nothing && o.response == failure,
            Some(t) => o.action == Action::Enqueue && shows_track(o.response, "Added to queue:"@, *t),
        },
{
    match found {
        None => Outcome { action: Action::Nothing, response: failure },
        Some(t) => match track_embed(t) {
            Some(e) => Outcome {
                action: Action::Enqueue,
                response: Response::Card(String::from_str("Added to queue:"), e),
            },
            None => vstd::pervasive::unreached(),
        },
    }
}

/// `play`, once it has said what it searches for: outside a voice channel it
/// says it cannot play; in one, the track the search found (`found`, `None`
/// when the search failed) is queued and shown, or it says the search failed.
/// In a voice channel, a track found must have every field the embed shows.
pub fn play(in_voice: bool, found: Option<&TrackInfo>) -> (o: Outcome)
    requires
        in_voice ==> !found_incomplete(found),
    ensures
        !in_voice ==> o.action == Action::Nothing && says(o.response, not_in_voice_text()),
        in_voice ==> match found {
            None => o.action == Action::Nothing && says(o.response, "Error sourcing ffmpeg"@),
            Some(t) => o.action == Action::Enqueue && shows_track(o.response, "Added to queue:"@, *t),
        },
{
    if !in_voice {
        return Outcome { action: Action::Nothing, response: Response::Say(not_in_voice()) };
    }
    enqueue_found(found, Response::Say(search_failed()))
}

/// The track has every field the queue listing shows.
pub open spec fn listable(t: TrackInfo) -> bool {
    &&& t.title is Some
    &&& t.source_url is Some
    &&& t.channel is Some
    &&& t.duration_secs is Some
}

/// The field that lists track `t` as entry `k` of the queue.
pub open spec fn track_queue_field(k: nat, t: TrackInfo) -> (Seq<char>, Seq<char>, bool) {
    queue_field(k, t.title->0@, t.channel->0@, duration_text(t.duration_secs->0 as nat))
}

/// The fields that list the tracks of the queue, in order.
pub open spec fn queue_fields_of(tracks: Seq<TrackInfo>) -> Seq<(Seq<char>, Seq<char>, bool)> {
    Seq::new(tracks.len(), |k: int| track_queue_field(k as nat, tracks[k]))
}

/// Field `j` of page `p` of the queue listing shows track `10 * p + j`: its
/// number counted from one, its whole title, " | " and its whole channel as
/// the name, and its written duration as the value.
pub proof fn lemma_queue_page_field(tracks: Seq<TrackInfo>, p: int, j: int)
    requires
        0 <= p < page_count(tracks.len()),
        0 <= j < page_entries(queue_fields_of(tracks), p).len(),
    ensures
        10 * p + j < tracks.len(),
        page_entries(queue_fields_of(tracks), p)[j] == (
            decimal((10 * p + j + 1) as nat) + ". "@ + tracks[10 * p + j].title->0@ + " | "@
                + tracks[10 * p + j].channel->0@,
            duration_text(tracks[10 * p + j].duration_secs->0 as nat),
            false,
        ),
{
    let k = 10 * p + j;
    let fs = queue_fields_of(tracks);
    assert(fs.len() == tracks.len());
    let hi: int = if 10 * p + 10 <= fs.len() { 10 * p + 10 } else { fs.len() as int };
    assert(10 * p < fs.len()) by {
        assert(page_count(fs.len()) * 10 <= fs.len() + 9);
    }
    assert(page_entries(fs, p).len() == hi - 10 * p);
    assert(k < tracks.len());
    let t = tracks[k];
    lemma_queue_field_text(k as nat, t.title->0@, t.channel->0@, duration_text(t.duration_secs->0 as nat));
    assert(page_entries(queue_fields_of(tracks), p)[j] == queue_fields_of(tracks)[k]);
}

/// The description of the queue listing: how many songs wait.
pub open spec fn queue_description(n: nat) -> Seq<char> {
    decimal(n) + " songs in queue"@
}

/// The queue's entries, in order, from the tracks' metadata; `None` when a
/// track lacks the title, the link, the channel or the duration.
pub fn queue_songs(tracks: &Vec<TrackInfo>) -> (songs: Option<Vec<QueueSong>>)
    ensures
        songs is None <==> exists|k: int| 0 <= k < tracks@.len() && !listable(#[trigger] tracks@[k]),
        songs matches Some(v) ==> {
            &&& v@.len() == tracks@.len()
            &&& forall|k: int| 0 <= k < v@.len() ==> {
                &&& (#[trigger] v@[k]).title@ == tracks@[k].title->0@
                &&& v@[k].channel@ == tracks@[k].channel->0@
                &&& v@[k].url@ == tracks@[k].source_url->0@
                &&& v@[k].duration@ == duration_text(tracks@[k].duration_secs->0 as nat)
            }
        },
{
    let mut songs: Vec<QueueSong> = Vec::new();
    let mut k: usize = 0;
    while k < tracks.len()
        invariant
            k <= tracks@.len(),
            songs@.len() == k,
            forall|j: int| 0 <= j < k ==> listable(#[trigger] tracks@[j]),
            forall|j: int| 0 <= j < k ==> {
                &&& (#[trigger] songs@[j]).title@ == tracks@[j].title->0@
                &&& songs@[j].channel@ == tracks@[j].channel->0@
                &&& songs@[j].url@ == tracks@[j].source_url->0@
                &&& songs@[j].duration@ == duration_text(tracks@[j].duration_secs->0 as nat)
            },
        decreases tracks@.len() - k,
    {
        match queue_song(&tracks[k]) {
            Some(s) => {
                songs.push(s);
            },
            None => {
                return None;
            },
        }
        k = k + 1;
    }
    Some(songs)
}

/// `queue`: the tracks waiting in the guild's queue (none outside a voice
/// channel) listed ten to a page under "current queue:", with the guild's
/// icon and the number of songs, or a reply that the queue is empty. Every
/// track must have the fields the listing shows.
pub fn queue(tracks: &Vec<TrackInfo>, icon: &str) -> (l: Listing)
    requires
        forall|k: int| 0 <= k < tracks@.len() ==> listable(#[trigger] tracks@[k]),
    ensures
        l matches Listing::Nothing(s) ==> tracks@.len() == 0 && s@ == "The queue is empty!"@,
        l matches Listing::Pages { first, pages } ==> {
            &&& tracks@.len() > 0
            &&& is_listing_page(
                first,
                "current queue:"@,
                icon@,
                queue_description(tracks@.len()),
                page_entries(queue_fields_of(tracks@), 0),
            )
            &&& pages@.len() == page_count(tracks@.len())
            &&& embed_text(first) == embed_text(pages@[0])
            &&& forall|p: int| 0 <= p < pages@.len() ==> is_listing_page(
                #[trigger] pages@[p],
                "current queue:"@,
                icon@,
                queue_description(tracks@.len()),
                page_entries(queue_fields_of(tracks@), p),
            )
            &&& forall|p: int, j: int|
                #![trigger fields_view(pages@[p].fields@)[j]]
                0 <= p < pages@.len() && 0 <= j < pages@[p].fields@.len() ==> {
                &&& fields_view(pages@[p].fields@)[j] == (
                    decimal((10 * p + j + 1) as nat) + ". "@ + tracks@[10 * p + j].title->0@ + " | "@
                        + tracks@[10 * p + j].channel->0@,
                    duration_text(tracks@[10 * p + j].duration_secs->0 as nat),
                    false,
                )
            }
        },
        tracks@.len() == 0 ==> l is Nothing,
{
    let songs = match queue_songs(tracks) {
        Some(s) => s,
        None => vstd::pervasive::unreached(),
    };
    if songs.len() == 0 {
        return Listing::Nothing(String::from_str("The queue is empty!"));
    }
    let fields = queue_fields(&songs);
    assert forall|k: int| 0 <= k < tracks@.len() implies fields_view(fields@)[k] == queue_fields_of(
        tracks@,
    )[k] by {
        let s = songs@[k];
        assert(fields_view(fields@)[k] == queue_field(k as nat, s.title@, s.channel@, s.duration@));
    }
    assert(fields_view(fields@) =~= queue_fields_of(tracks@));
    let mut description = String::new();
    push_decimal(&mut description, songs.len() as u64);
    description.append(" songs in queue");
    assert(description@ =~= queue_description(tracks@.len()));
    let first = first_page("current queue:", icon, description.as_str(), &fields);
    let pages = list_pages("current queue:", icon, description.as_str(), &fields);
    assert(embed_text(first) == embed_text(pages@[0]));
    assert forall|p: int, j: int|
        #![trigger fields_view(pages@[p].fields@)[j]]
        0 <= p < pages@.len() && 0 <= j < pages@[p].fields@.len() implies {
        &&& fields_view(pages@[p].fields@)[j] == (
            decimal((10 * p + j + 1) as nat) + ". "@ + tracks@[10 * p + j].title->0@ + " | "@
                + tracks@[10 * p + j].channel->0@,
            duration_text(tracks@[10 * p + j].duration_secs->0 as nat),
            false,
        )
    } by {
        assert(fields_view(pages@[p].fields@) == page_entries(queue_fields_of(tracks@), p));
        lemma_queue_page_field(tracks@, p, j);
    }
    Listing::Pages { first, pages }
}

} // verus!
