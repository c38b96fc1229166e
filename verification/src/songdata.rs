use vstd::prelude::*;

use crate::lines::{lemma_lines_line_then, read_lines, spec_lines, strip_cr};
use crate::text::decimal;
use crate::track::song_record;

verus! {

/// A song saved to a guild's favourites, as read back from its data file.
/// The duration is the text of its line: the length in seconds.
#[derive(Clone, Debug)]
pub struct Song {
    pub title: String,
    pub url: String,
    pub duration: String,
    pub thumbnail: String,
    pub channel: String,
}

/// The text of a saved song's fields.
pub struct SongText {
    pub title: Seq<char>,
    pub url: Seq<char>,
    pub duration: Seq<char>,
    pub thumbnail: Seq<char>,
    pub channel: Seq<char>,
}

impl View for Song {
    type V = SongText;

    open spec fn view(&self) -> SongText {
        SongText {
            title: self.title@,
            url: self.url@,
            duration: self.duration@,
            thumbnail: self.thumbnail@,
            channel: self.channel@,
        }
    }
}

/// The song a data file holds: its first five lines are the title, the link,
/// the thumbnail, the duration and the channel; a file of fewer lines holds none.
pub open spec fn spec_parse_song(text: Seq<char>) -> Option<SongText> {
    let ls = spec_lines(text);
    if ls.len() >= 5 {
        Some(SongText { title: ls[0], url: ls[1], thumbnail: ls[2], duration: ls[3], channel: ls[4] })
    } else {
        None
    }
}

/// The song held in the text of a data file, or `None` when the file has
/// fewer than five lines.
pub fn parse_song_data(text: &str) -> (song: Option<Song>)
    ensures
        match song {
            Some(s) => spec_parse_song(text@) == Some(s@),
            None => spec_parse_song(text@) is None,
        },
{
    let mut lines = read_lines(text);
    proof {
        assert(lines@.len() == spec_lines(text@).len());
    }
    if lines.len() < 5 {
        return None;
    }
    let ghost ls = lines@.map_values(|l: String| l@);
    assert(ls[0] == lines@[0]@ && ls[1] == lines@[1]@ && ls[2] == lines@[2]@);
    assert(ls[3] == lines@[3]@ && ls[4] == lines@[4]@);
    let channel = lines.remove(4);
    let duration = lines.remove(3);
    let thumbnail = lines.remove(2);
    let url = lines.remove(1);
    let title = lines.remove(0);
    Some(Song { title, url, duration, thumbnail, channel })
}

/// The text of a data file that may be missing, as plain text.
pub open spec fn file_text(f: Option<String>) -> Option<Seq<char>> {
    match f {
        Some(s) => Some(s@),
        None => None,
    }
}

/// The songs held in a favourites folder whose entries' data files have the
/// given texts, in the folder's order: an entry whose file could not be
/// opened is passed over, and an entry whose file is too short spoils the
/// whole list.
pub open spec fn spec_getsongs(files: Seq<Option<Seq<char>>>) -> Option<Seq<SongText>>
    decreases files.len(),
{
    if files.len() == 0 {
        Some(Seq::empty())
    } else {
        match spec_getsongs(files.drop_last()) {
            None => None,
            Some(prev) => match files.last() {
                None => Some(prev),
                Some(t) => match spec_parse_song(t) {
                    Some(song) => Some(prev.push(song)),
                    None => None,
                },
            },
        }
    }
}

/// When the list is not spoiled, every data file that could be opened holds a song.
pub proof fn lemma_getsongs_all_parse(files: Seq<Option<Seq<char>>>)
    requires
        spec_getsongs(files) is Some,
    ensures
        forall|i: int| 0 <= i < files.len() && (#[trigger] files[i]) is Some ==> spec_parse_song(files[i]->0) is Some,
    decreases files.len(),
{
    if files.len() > 0 {
        lemma_getsongs_all_parse(files.drop_last());
        assert forall|i: int| 0 <= i < files.len() && (#[trigger] files[i]) is Some implies spec_parse_song(files[i]->0) is Some by {
            if i < files.len() - 1 {
                assert(files.drop_last()[i] == files[i]);
            } else {
                assert(files.last() == files[i]);
            }
        }
    }
}

/// When every data file could be opened and none spoils the list, the list
/// holds one song per entry, the song its file holds.
pub proof fn lemma_getsongs_all_open(files: Seq<Option<Seq<char>>>)
    requires
        spec_getsongs(files) is Some,
        forall|i: int| 0 <= i < files.len() ==> (#[trigger] files[i]) is Some,
    ensures
        spec_getsongs(files)->0.len() == files.len(),
        forall|i: int| 0 <= i < files.len() ==> Some(#[trigger] spec_getsongs(files)->0[i]) == spec_parse_song(files[i]->0),
    decreases files.len(),
{
    if files.len() > 0 {
        let prev = files.drop_last();
        assert forall|i: int| 0 <= i < prev.len() implies (#[trigger] prev[i]) is Some by {
            assert(prev[i] == files[i]);
        }
        lemma_getsongs_all_open(prev);
        assert(files.last() == files[files.len() - 1]);
        assert forall|i: int| 0 <= i < files.len() implies Some(#[trigger] spec_getsongs(files)->0[i]) == spec_parse_song(files[i]->0) by {
            if i < files.len() - 1 {
                assert(prev[i] == files[i]);
            }
        }
    }
}

/// Every data file that could be opened holds at least the five lines of a song.
pub open spec fn all_records(texts: Seq<Option<Seq<char>>>) -> bool {
    forall|i: int| 0 <= i < texts.len() && (#[trigger] texts[i]) is Some ==> spec_lines(texts[i]->0).len() >= 5
}

/// How many entries' data files could be opened.
pub open spec fn opened_count(texts: Seq<Option<Seq<char>>>) -> nat
    decreases texts.len(),
{
    if texts.len() == 0 {
        0
    } else {
        opened_count(texts.drop_last()) + if texts.last() is Some { 1nat } else { 0nat }
    }
}

/// When every data file that could be opened holds a song, the list is not
/// spoiled and holds one song per opened file.
pub proof fn lemma_getsongs_readable(texts: Seq<Option<Seq<char>>>)
    requires
        all_records(texts),
    ensures
        spec_getsongs(texts) is Some,
        spec_getsongs(texts)->0.len() == opened_count(texts),
        opened_count(texts) <= texts.len(),
    decreases texts.len(),
{
    if texts.len() > 0 {
        let prev = texts.drop_last();
        assert forall|i: int| 0 <= i < prev.len() && (#[trigger] prev[i]) is Some implies spec_lines(prev[i]->0).len() >= 5 by {
            assert(prev[i] == texts[i]);
        }
        lemma_getsongs_readable(prev);
        assert(texts.last() == texts[texts.len() - 1]);
    }
}

/// Reading the first `k` entries of a folder gives a prefix of what reading
/// its first `m` entries gives, when every data file among those `m` that
/// could be opened holds a song: the longer list adds one song for each file
/// opened among entries `k` to `m`.
pub proof fn lemma_getsongs_prefix(texts: Seq<Option<Seq<char>>>, k: int, m: int)
    requires
        0 <= k <= m <= texts.len(),
        all_records(texts.take(m)),
    ensures
        spec_getsongs(texts.take(k)) is Some,
        spec_getsongs(texts.take(m)) is Some,
        spec_getsongs(texts.take(k))->0.len() <= spec_getsongs(texts.take(m))->0.len(),
        spec_getsongs(texts.take(m))->0.take(spec_getsongs(texts.take(k))->0.len() as int)
            == spec_getsongs(texts.take(k))->0,
        spec_getsongs(texts.take(m))->0.len() - spec_getsongs(texts.take(k))->0.len()
            == opened_count(texts.take(m)) - opened_count(texts.take(k)),
    decreases m - k,
{
    let tm = texts.take(m);
    assert forall|i: int| 0 <= i < texts.take(k).len() && (#[trigger] texts.take(k)[i]) is Some implies spec_lines(texts.take(k)[i]->0).len() >= 5 by {
        assert(texts.take(k)[i] == tm[i]);
    }
    lemma_getsongs_readable(texts.take(k));
    lemma_getsongs_readable(tm);
    if k == m {
        let sk = spec_getsongs(texts.take(k))->0;
        assert(sk.take(sk.len() as int) =~= sk);
    } else {
        let tp = texts.take(m - 1);
        assert(tm.drop_last() =~= tp);
        assert forall|i: int| 0 <= i < tp.len() && (#[trigger] tp[i]) is Some implies spec_lines(tp[i]->0).len() >= 5 by {
            assert(tp[i] == tm[i]);
        }
        lemma_getsongs_prefix(texts, k, m - 1);
        let sk = spec_getsongs(texts.take(k))->0;
        let sp = spec_getsongs(tp)->0;
        let sm = spec_getsongs(tm)->0;
        assert(sm.take(sk.len() as int) =~= sp.take(sk.len() as int));
    }
}

/// The songs of a favourites folder, given the text of each entry's data
/// file (`None` where the file could not be opened), in the folder's order;
/// every file that could be opened must hold at least five lines.
pub fn getsongs(files: &Vec<Option<String>>) -> (songs: Vec<Song>)
    requires
        all_records(files@.map_values(|f: Option<String>| file_text(f))),
    ensures
        spec_getsongs(files@.map_values(|f: Option<String>| file_text(f))) == Some(songs@.map_values(|s: Song| s@)),
        songs@.len() == opened_count(files@.map_values(|f: Option<String>| file_text(f))),
{
    let ghost texts = files@.map_values(|f: Option<String>| file_text(f));
    proof {
        lemma_getsongs_readable(texts);
    }
    let mut songs: Vec<Song> = Vec::new();
    let mut i: usize = 0;
    while i < files.len()
        invariant
            i <= files@.len(),
            texts == files@.map_values(|f: Option<String>| file_text(f)),
            all_records(texts),
            spec_getsongs(texts.take(i as int)) == Some(songs@.map_values(|s: Song| s@)),
        decreases files@.len() - i,
    {
        assert(texts.take(i + 1).drop_last() =~= texts.take(i as int));
        assert(texts.take(i + 1).last() == file_text(files@[i as int]));
        let ghost before = songs@.map_values(|s: Song| s@);
        match &files[i] {
            None => {},
            Some(text) => {
                assert(texts[i as int] == Some(text@));
                if let Some(song) = parse_song_data(text.as_str()) {
                    songs.push(song);
                    assert(songs@.map_values(|s: Song| s@) =~= before.push(song@));
                }
            },
        }
        i = i + 1;
    }
    assert(texts.take(i as int) =~= texts);
    songs
}

/// A line that a reader gives back as it was written: it holds no newline
/// and does not end with a carriage return.
pub open spec fn plain_line(l: Seq<char>) -> bool {
    &&& !l.contains('\n')
    &&& strip_cr(l) == l
}

proof fn lemma_decimal_plain(n: nat)
    ensures
        plain_line(decimal(n)),
        forall|i: int| 0 <= i < decimal(n).len() ==> '0' <= #[trigger] decimal(n)[i] <= '9',
    decreases n,
{
    if n >= 10 {
        lemma_decimal_plain(n / 10);
    }
    let d = decimal(n);
    assert(forall|i: int| 0 <= i < d.len() ==> '0' <= #[trigger] d[i] <= '9');
    if d.contains('\n') {
        let k = choose|k: int| 0 <= k < d.len() && d[k] == '\n';
        assert('0' <= d[k]);
    }
    assert(d.last() == d[d.len() - 1]);
}

/// A song saved to its data file is read back as it was saved, whatever the
/// file holds after it: the duration comes back as the decimal text of the
/// seconds. Lines holding a newline, or ending with a carriage return, are
/// not given back as they were written, and are left out.
pub proof fn lemma_saved_song_reads_back(
    title: Seq<char>,
    url: Seq<char>,
    thumbnail: Seq<char>,
    secs: nat,
    channel: Seq<char>,
    rest: Seq<char>,
)
    requires
        plain_line(title),
        plain_line(url),
        plain_line(thumbnail),
        plain_line(channel),
    ensures
        spec_parse_song(song_record(title, url, thumbnail, secs, channel) + rest) == Some(
            SongText { title, url, duration: decimal(secs), thumbnail, channel },
        ),
{
    lemma_decimal_plain(secs);
    let d = decimal(secs);
    let r4 = channel.push('\n') + rest;
    let r3 = d.push('\n') + r4;
    let r2 = thumbnail.push('\n') + r3;
    let r1 = url.push('\n') + r2;
    let r0 = title.push('\n') + r1;
    assert(song_record(title, url, thumbnail, secs, channel) + rest =~= r0);
    lemma_lines_line_then(channel, rest);
    lemma_lines_line_then(d, r4);
    lemma_lines_line_then(thumbnail, r3);
    lemma_lines_line_then(url, r2);
    lemma_lines_line_then(title, r1);
    let ls = spec_lines(r0);
    assert(ls =~= seq![title, url, thumbnail, d, channel] + spec_lines(rest));
}

} // verus!
