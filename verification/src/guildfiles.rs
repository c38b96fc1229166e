use vstd::prelude::*;
use vstd::string::StringSliceAdditionalSpecFns;

use crate::embed::{field, fields_view, Embed, EmbedField};
use crate::lines::{read_lines, spec_lines};
use crate::listing::{lemma_favs_field_text, favs_field, favs_fields, first_page, is_listing_page, list_pages, numbered, numbered_name, page_count, page_entries, Listing};
use crate::songdata::{all_records, file_text, getsongs, lemma_getsongs_all_open, lemma_getsongs_readable, opened_count, spec_getsongs, spec_parse_song, Song, SongText};
use crate::text::{argument_after, decimal, parse_i32, parse_usize, push_decimal, spec_parse_i32, spec_parse_unsigned};
use crate::voice::{not_in_voice, not_in_voice_text};

verus! {

/// The reply when the guild has no favourites.
pub open spec fn no_favorites_text() -> Seq<char> {
    "No songs are saved to favorites!"@
}

fn no_favorites() -> (s: String)
    ensures
        s@ == no_favorites_text(),
{
    String::from_str("No songs are saved to favorites!")
}

/// What a favourites command does next: reply and stop, or go on with the
/// favourite at the given place (counted from zero) in the guild's folder.
#[derive(Debug)]
pub enum FavStep {
    Tell(String),
    Go(usize),
}

/// The step is a reply holding `text`.
pub open spec fn tells(step: FavStep, text: Seq<char>) -> bool {
    step matches FavStep::Tell(s) && s@ == text
}

/// `delfav`: with no favourites it says so; else it reads the number after
/// the command (what follows byte 8) and removes that favourite (counted
/// from one), or says the number is not a valid index. When there are
/// favourites, byte 8 of the message must start a character (or end it).
pub fn delfav(size: usize, content: &str) -> (step: FavStep)
    requires
        size > 0 ==> vstd::utf8::is_char_boundary(content.spec_bytes(), 8),
    ensures
        size == 0 ==> tells(step, no_favorites_text()),
        size > 0 ==> ({
            let q = spec_parse_unsigned(content.spec_bytes().skip(8), usize::MAX as nat);
            match step {
                FavStep::Go(i) => q == Some((i + 1) as nat) && i < size,
                FavStep::Tell(s) => s@ == "not a valid index!"@ && !(q is Some && 1 <= q->0 <= size),
            }
        }),
{
    if size == 0 {
        return FavStep::Tell(no_favorites());
    }
    let arg = match argument_after(content, 8) {
        Some(a) => a,
        None => vstd::pervasive::unreached(),
    };
    match parse_usize(arg) {
        Some(q) if q > 0 && q - 1 < size => FavStep::Go(q - 1),
        _ => FavStep::Tell(String::from_str("not a valid index!")),
    }
}

/// The reply to `delfav` when the message's guild cannot be found.
pub fn guild_not_found() -> (s: String)
    ensures
        s@ == "unable to find guild"@,
{
    String::from_str("unable to find guild")
}

/// The reply after a favourite was removed.
pub fn removed_favorite() -> (s: String)
    ensures
        s@ == "removed song from favorites"@,
{
    String::from_str("removed song from favorites")
}

/// `playfavat`: reads the number after the command (what follows byte 11),
/// then, with no favourites, says so; with a number past the favourites or
/// zero, says it is not a valid track; outside a voice channel says it
/// cannot play; else goes on with that favourite (counted from one). The
/// folder holds at most `i32::MAX` entries, byte 11 of the message starts a
/// character (or ends it), what follows it is an `i32`, and that number is
/// not negative when there are favourites and the author is in a voice channel.
pub fn playfavat(content: &str, size: usize, in_voice: bool) -> (step: FavStep)
    requires
        size <= 0x7fff_ffff,
        vstd::utf8::is_char_boundary(content.spec_bytes(), 11),
        spec_parse_i32(content.spec_bytes().skip(11)) is Some,
        !(size > 0 && in_voice && spec_parse_i32(content.spec_bytes().skip(11))->0 < 0),
    ensures
        ({
            let q: int = spec_parse_i32(content.spec_bytes().skip(11))->0;
            if size == 0 {
                tells(step, no_favorites_text())
            } else if q > size || q == 0 {
                tells(step, "not a valid track!"@)
            } else if !in_voice {
                tells(step, not_in_voice_text())
            } else {
                step == FavStep::Go((q - 1) as usize)
            }
        }),
{
    let arg = match argument_after(content, 11) {
        Some(a) => a,
        None => vstd::pervasive::unreached(),
    };
    let q = match parse_i32(arg) {
        Some(q) => q,
        None => vstd::pervasive::unreached(),
    };
    let n: i32 = size as i32;
    if n == 0 {
        return FavStep::Tell(no_favorites());
    }
    if q > n || q == 0 {
        return FavStep::Tell(String::from_str("not a valid track!"));
    }
    if !in_voice {
        return FavStep::Tell(not_in_voice());
    }
    FavStep::Go((q - 1) as usize)
}

/// What `playfavat` searches for: the link saved on the second line of the
/// favourite's data file, which must hold at least two lines.
pub fn favorite_search_text(data: &str) -> (s: String)
    requires
        spec_lines(data@).len() >= 2,
    ensures
        s@ == spec_lines(data@)[1],
{
    let mut lines = read_lines(data);
    assert(lines@.map_values(|l: String| l@)[1] == lines@[1]@);
    lines.swap_remove(1)
}

/// The fields of the favourites listing, one per song, numbered from one.
pub open spec fn favs_fields_of(songs: Seq<SongText>) -> Seq<(Seq<char>, Seq<char>, bool)> {
    Seq::new(songs.len(), |k: int| favs_field(k as nat, songs[k]))
}

/// The fields of the page the favourites listing opens on, made from the
/// first `m` entries of the folder: each entry whose data file could be
/// opened gives its number in the folder, its title and its channel.
pub open spec fn opening_fields(files: Seq<Option<Seq<char>>>, m: nat) -> Seq<(Seq<char>, Seq<char>, bool)>
    decreases m,
{
    if m == 0 {
        Seq::empty()
    } else {
        let prev = opening_fields(files, (m - 1) as nat);
        match files[m - 1] {
            Some(t) => prev.push((numbered((m - 1) as nat, spec_lines(t)[0]), spec_lines(t)[4], false)),
            None => prev,
        }
    }
}

/// The page the favourites listing opens on has one field for each of the
/// first `m` entries whose data file could be opened, and each field shows
/// such an entry by its number in the folder and the whole first line of its
/// data file.
pub proof fn lemma_opening_fields_text(texts: Seq<Option<Seq<char>>>, m: nat)
    requires
        m <= texts.len(),
    ensures
        opening_fields(texts, m).len() == opened_count(texts.take(m as int)),
        forall|j: int| 0 <= j < opening_fields(texts, m).len() ==> exists|i: int|
            0 <= i < m && (#[trigger] texts[i]) is Some && #[trigger] opening_fields(texts, m)[j] == (decimal((i + 1) as nat) + ". "@ + spec_lines(texts[i]->0)[0], spec_lines(texts[i]->0)[4], false),
    decreases m,
{
    reveal_strlit(". ");
    if m == 0 {
        assert(texts.take(0) =~= Seq::<Option<Seq<char>>>::empty());
    } else {
        let k: int = m - 1;
        lemma_opening_fields_text(texts, k as nat);
        assert(texts.take(m as int).drop_last() =~= texts.take(k));
        assert(texts.take(m as int).last() == texts[k]);
        let prev = opening_fields(texts, k as nat);
        let cur = opening_fields(texts, m);
        if texts[k] is Some {
            let t = texts[k]->0;
            let f = (numbered(k as nat, spec_lines(t)[0]), spec_lines(t)[4], false);
            assert(numbered(k as nat, spec_lines(t)[0]) =~= decimal((k + 1) as nat) + ". "@ + spec_lines(t)[0]);
            assert(f == (decimal((k + 1) as nat) + ". "@ + spec_lines(t)[0], spec_lines(t)[4], false));
            assert(cur == prev.push(f));
        } else {
            assert(cur == prev);
        }
        assert forall|j: int| 0 <= j < cur.len() implies exists|i: int|
            0 <= i < m && (#[trigger] texts[i]) is Some && #[trigger] cur[j] == (decimal((i + 1) as nat) + ". "@ + spec_lines(texts[i]->0)[0], spec_lines(texts[i]->0)[4], false) by {
            if j < prev.len() {
                assert(cur[j] == prev[j]);
                let i = choose|i: int| 0 <= i < k && (#[trigger] texts[i]) is Some && prev[j] == (decimal((i + 1) as nat) + ". "@ + spec_lines(texts[i]->0)[0], spec_lines(texts[i]->0)[4], false);
                assert(texts[i] is Some);
            } else {
                assert(cur[j] == (decimal((k + 1) as nat) + ". "@ + spec_lines(texts[k]->0)[0], spec_lines(texts[k]->0)[4], false));
                assert(texts[k] is Some);
            }
        }
    }
}

/// When every data file among the first `m` entries could be opened, field
/// `i` of the page the favourites listing opens on shows entry `i`.
pub proof fn lemma_opening_fields_all_open(texts: Seq<Option<Seq<char>>>, m: nat)
    requires
        m <= texts.len(),
        forall|i: int| 0 <= i < m ==> (#[trigger] texts[i]) is Some,
    ensures
        opening_fields(texts, m).len() == m,
        forall|i: int| 0 <= i < m ==> #[trigger] opening_fields(texts, m)[i] == (decimal((i + 1) as nat) + ". "@ + spec_lines(texts[i]->0)[0], spec_lines(texts[i]->0)[4], false),
    decreases m,
{
    reveal_strlit(". ");
    if m > 0 {
        let k: int = m - 1;
        assert forall|i: int| 0 <= i < k implies (#[trigger] texts[i]) is Some by {
            assert(texts[i] is Some);
        }
        lemma_opening_fields_all_open(texts, k as nat);
        assert(texts[k] is Some);
        let prev = opening_fields(texts, k as nat);
        let cur = opening_fields(texts, m);
        let t = texts[k]->0;
        let f = (numbered(k as nat, spec_lines(t)[0]), spec_lines(t)[4], false);
        assert(numbered(k as nat, spec_lines(t)[0]) =~= decimal((k + 1) as nat) + ". "@ + spec_lines(t)[0]);
        assert(cur == prev.push(f));
        assert forall|i: int| 0 <= i < m implies #[trigger] cur[i] == (decimal((i + 1) as nat) + ". "@ + spec_lines(texts[i]->0)[0], spec_lines(texts[i]->0)[4], false) by {
            if i < k {
                assert(cur[i] == prev[i]);
            }
        }
    }
}

/// Field `j` of page `p` of the favourites listing shows song `10 * p + j`:
/// its number counted from one, a dot and a space, and its whole title as
/// the name, its channel as the value.
pub proof fn lemma_favs_page_field(songs: Seq<SongText>, p: int, j: int)
    requires
        0 <= p < page_count(songs.len()),
        0 <= j < page_entries(favs_fields_of(songs), p).len(),
    ensures
        10 * p + j < songs.len(),
        page_entries(favs_fields_of(songs), p)[j] == (
            decimal((10 * p + j + 1) as nat) + ". "@ + songs[10 * p + j].title,
            songs[10 * p + j].channel,
            false,
        ),
{
    let k = 10 * p + j;
    let fs = favs_fields_of(songs);
    let hi: int = if 10 * p + 10 <= fs.len() { 10 * p + 10 } else { fs.len() as int };
    assert(10 * p < fs.len()) by {
        assert(page_count(fs.len()) * 10 <= fs.len() + 9);
    }
    assert(page_entries(fs, p).len() == hi - 10 * p);
    assert(k < songs.len());
    lemma_favs_field_text(k as nat, songs[k]);
    assert(page_entries(fs, p)[j] == fs[k]);
}

/// The heading of the favourites listing.
pub open spec fn favs_title(guild: Seq<char>) -> Seq<char> {
    guild + " favorites"@
}

/// The description of the favourites listing: how many favourites there are.
pub open spec fn favs_description(n: nat) -> Seq<char> {
    decimal(n) + " songs in favorites"@
}

/// When every data file of the folder could be opened, the page the
/// favourites listing opens on is its first page.
pub proof fn lemma_opening_is_first_page(texts: Seq<Option<Seq<char>>>)
    requires
        spec_getsongs(texts) is Some,
        forall|i: int| 0 <= i < texts.len() ==> (#[trigger] texts[i]) is Some,
    ensures
        opening_fields(texts, if texts.len() < 10 { texts.len() } else { 10 }) == page_entries(
            favs_fields_of(spec_getsongs(texts)->0),
            0,
        ),
{
    lemma_getsongs_all_open(texts);
    let songs = spec_getsongs(texts)->0;
    let all = favs_fields_of(songs);
    let m: nat = if texts.len() < 10 { texts.len() } else { 10 };
    lemma_opening_prefix(texts, songs, m);
    assert(page_entries(all, 0) =~= all.take(m as int));
}

proof fn lemma_opening_prefix(texts: Seq<Option<Seq<char>>>, songs: Seq<SongText>, m: nat)
    requires
        m <= texts.len() == songs.len(),
        forall|i: int| 0 <= i < texts.len() ==> (#[trigger] texts[i]) is Some,
        forall|i: int| 0 <= i < texts.len() ==> Some(#[trigger] songs[i]) == spec_parse_song(texts[i]->0),
    ensures
        opening_fields(texts, m) == favs_fields_of(songs).take(m as int),
    decreases m,
{
    if m > 0 {
        lemma_opening_prefix(texts, songs, (m - 1) as nat);
        let k: int = m - 1;
        assert(texts[k] is Some);
        assert(Some(songs[k]) == spec_parse_song(texts[k]->0));
        assert(favs_fields_of(songs).take(m as int) =~= favs_fields_of(songs).take(k).push(
            favs_fields_of(songs)[k],
        ));
    } else {
        assert(favs_fields_of(songs).take(0) =~= Seq::<(Seq<char>, Seq<char>, bool)>::empty());
    }
}

fn opening_page(title: &str, icon: &str, description: &str, files: &Vec<Option<String>>, m: usize) -> (e: Embed)
    requires
        m <= files@.len(),
        m <= 10,
        forall|i: int| 0 <= i < m && (#[trigger] files@[i]) is Some ==> spec_lines(files@[i]->0@).len() >= 5,
    ensures
        is_listing_page(
            e,
            title@,
            icon@,
            description@,
            opening_fields(files@.map_values(|f: Option<String>| file_text(f)), m as nat),
        ),
{
    let ghost texts = files@.map_values(|f: Option<String>| file_text(f));
    let mut fields: Vec<EmbedField> = Vec::new();
    let mut i: usize = 0;
    while i < m
        invariant
            i <= m <= files@.len(),
            texts == files@.map_values(|f: Option<String>| file_text(f)),
            forall|j: int| 0 <= j < m && (#[trigger] files@[j]) is Some ==> spec_lines(files@[j]->0@).len() >= 5,
            fields_view(fields@) == opening_fields(texts, i as nat),
            fields@.len() <= i,
        decreases m - i,
    {
        match &files[i] {
            Some(text) => {
                let lines = read_lines(text.as_str());
                assert(texts[i as int] == Some(text@));
                let ghost ls = lines@.map_values(|l: String| l@);
                assert(ls.len() >= 5);
                assert(ls[0] == lines@[0]@ && ls[4] == lines@[4]@);
                let name = numbered_name(i, lines[0].as_str(), false, "");
                let ghost before = fields@;
                fields.push(field(name, lines[4].clone()));
                assert(fields_view(fields@) =~= fields_view(before).push(
                    (numbered(i as nat, ls[0]), ls[4], false),
                ));
            },
            None => {
                assert(texts[i as int] is None);
            },
        }
        i = i + 1;
    }
    assert(page_entries(fields_view(fields@), 0) =~= fields_view(fields@));
    first_page(title, icon, description, &fields)
}

/// `favs`: the guild's favourites (the data file of each entry of its
/// folder, `None` where one could not be opened) listed ten to a page under
/// the guild's name, with its icon and the number of entries, or a reply
/// that there are none. The listing opens on a page made straight from the
/// folder's first ten entries. The folder holds at most `i32::MAX` entries,
/// every data file that could be opened holds at least five lines, and the
/// files that could be opened fill the full pages.
pub fn favs(guild: &str, icon: &str, files: &Vec<Option<String>>) -> (l: Listing)
    requires
        files@.len() <= 0x7fff_ffff,
        all_records(files@.map_values(|f: Option<String>| file_text(f))),
        opened_count(files@.map_values(|f: Option<String>| file_text(f))) >= 10 * (files@.len() / 10),
    ensures
        ({
            let texts = files@.map_values(|f: Option<String>| file_text(f));
            let n: nat = files@.len();
            let songs = spec_getsongs(texts)->0;
            &&& (l matches Listing::Nothing(s) ==> n == 0 && s@ == no_favorites_text())
            &&& (n == 0 ==> l is Nothing)
            &&& (l matches Listing::Pages { first, pages } ==> {
                &&& n > 0
                &&& is_listing_page(
                    first,
                    favs_title(guild@),
                    icon@,
                    favs_description(n),
                    opening_fields(texts, if n < 10 { n } else { 10 }),
                )
                &&& pages@.len() == page_count(songs.len())
                &&& forall|p: int| 0 <= p < pages@.len() ==> is_listing_page(
                    #[trigger] pages@[p],
                    favs_title(guild@),
                    icon@,
                    favs_description(n),
                    page_entries(favs_fields_of(songs), p),
                )
                &&& forall|p: int, j: int|
                    #![trigger fields_view(pages@[p].fields@)[j]]
                    0 <= p < pages@.len() && 0 <= j < pages@[p].fields@.len() ==> fields_view(pages@[p].fields@)[j] == (
                        decimal((10 * p + j + 1) as nat) + ". "@ + songs[10 * p + j].title,
                        songs[10 * p + j].channel,
                        false,
                    )
                &&& first.fields@.len() == opened_count(texts.take(if n < 10 { n as int } else { 10 }))
                &&& forall|j: int| 0 <= j < first.fields@.len() ==> exists|i: int|
                    0 <= i < (if n < 10 { n as int } else { 10 }) && (#[trigger] texts[i]) is Some
                        && #[trigger] fields_view(first.fields@)[j] == (decimal((i + 1) as nat) + ". "@ + spec_lines(texts[i]->0)[0], spec_lines(texts[i]->0)[4], false)
            })
        }),
{
    let ghost texts = files@.map_values(|f: Option<String>| file_text(f));
    let n: usize = files.len();
    if n == 0 {
        return Listing::Nothing(no_favorites());
    }
    let songs = getsongs(files);
    assert(songs@.map_values(|s: Song| s@) == spec_getsongs(texts)->0);
    let mut title = String::from_str(guild);
    title.append(" favorites");
    let mut description = String::new();
    push_decimal(&mut description, n as u64);
    description.append(" songs in favorites");
    assert(description@ =~= favs_description(n as nat));
    let fields = favs_fields(&songs);
    assert(fields_view(fields@) =~= favs_fields_of(spec_getsongs(texts)->0));
    let pages = list_pages(title.as_str(), icon, description.as_str(), &fields);
    let m: usize = if n < 10 { n } else { 10 };
    proof {
        assert forall|i: int| 0 <= i < m && (#[trigger] files@[i]) is Some implies spec_lines(files@[i]->0@).len() >= 5 by {
            assert(texts[i] == file_text(files@[i]));
        }
    }
    let first = opening_page(title.as_str(), icon, description.as_str(), files, m);
    proof {
        let songs_v = spec_getsongs(texts)->0;
        assert forall|p: int, j: int|
            #![trigger fields_view(pages@[p].fields@)[j]]
            0 <= p < pages@.len() && 0 <= j < pages@[p].fields@.len() implies fields_view(pages@[p].fields@)[j] == (
                decimal((10 * p + j + 1) as nat) + ". "@ + songs_v[10 * p + j].title,
                songs_v[10 * p + j].channel,
                false,
            ) by {
            assert(fields_view(pages@[p].fields@) == page_entries(favs_fields_of(songs_v), p));
            lemma_favs_page_field(songs_v, p, j);
        }
        lemma_opening_fields_text(texts, m as nat);
        assert(fields_view(first.fields@) == opening_fields(texts, m as nat));
        assert(first.fields@.len() == fields_view(first.fields@).len());
    }
    Listing::Pages { first, pages }
}

/// One choice of the favourites menu: the song's title shown, its link sent back.
#[derive(Debug)]
pub struct MenuOption {
    pub label: String,
    pub value: String,
}

/// The menu `playfav` sends: one choice per favourite, in the folder's order.
#[derive(Debug)]
pub struct SongMenu {
    pub prompt: String,
    pub custom_id: String,
    pub placeholder: String,
    /// The fewest choices to make.
    pub min_values: u64,
    /// The most choices to make.
    pub max_values: u64,
    pub options: Vec<MenuOption>,
}

/// What `playfav` answers first: a reply that stops it, or the menu to choose from.
#[derive(Debug)]
pub enum FavMenu {
    Tell(String),
    Menu(SongMenu),
}

/// `playfav`: with no favourites it says so; outside a voice channel it says
/// it cannot play; else it offers a menu of the favourites, each shown by its
/// title and chosen by its link. The folder holds at most `i32::MAX`
/// entries, and when the menu is made every data file could be opened and
/// holds at least five lines.
pub fn playfav(files: &Vec<Option<String>>, in_voice: bool) -> (m: FavMenu)
    requires
        files@.len() <= 0x7fff_ffff,
        files@.len() > 0 && in_voice ==> all_records(files@.map_values(|f: Option<String>| file_text(f))),
        files@.len() > 0 && in_voice ==> forall|i: int| 0 <= i < files@.len() ==> (#[trigger] files@[i]) is Some,
    ensures
        ({
            let texts = files@.map_values(|f: Option<String>| file_text(f));
            let n: nat = files@.len();
            let songs = spec_getsongs(texts)->0;
            &&& (n == 0 ==> (m matches FavMenu::Tell(s) && s@ == no_favorites_text()))
            &&& (n > 0 && !in_voice ==> (m matches FavMenu::Tell(s) && s@ == not_in_voice_text()))
            &&& (n > 0 && in_voice ==> m is Menu)
            &&& (m matches FavMenu::Menu(menu) ==> {
                &&& n > 0 && in_voice
                &&& menu.prompt@ == "Select song from favorites: "@
                &&& menu.custom_id@ == "favmenu"@
                &&& menu.placeholder@ == "select song"@
                &&& menu.min_values == 1 && menu.max_values == 1
                &&& menu.options@.len() == n
                &&& songs.len() == n
                &&& forall|i: int| 0 <= i < n ==> (#[trigger] menu.options@[i]).label@ == songs[i].title
                    && menu.options@[i].value@ == songs[i].url
            })
        }),
{
    let ghost texts = files@.map_values(|f: Option<String>| file_text(f));
    let n: usize = files.len();
    if n == 0 {
        return FavMenu::Tell(no_favorites());
    }
    if !in_voice {
        return FavMenu::Tell(not_in_voice());
    }
    proof {
        assert forall|i: int| 0 <= i < texts.len() implies (#[trigger] texts[i]) is Some by {
            assert(texts[i] == file_text(files@[i]));
        }
        lemma_getsongs_readable(texts);
        lemma_getsongs_all_open(texts);
    }
    let songs = getsongs(files);
    assert(songs@.map_values(|s: Song| s@) == spec_getsongs(texts)->0);
    assert(songs@.len() == n);
    let mut options: Vec<MenuOption> = Vec::new();
    let mut i: usize = 0;
    while i < n
        invariant
            i <= n == songs@.len(),
            options@.len() == i,
            forall|j: int| 0 <= j < i ==> (#[trigger] options@[j]).label@ == songs@[j].title@
                && options@[j].value@ == songs@[j].url@,
        decreases n - i,
    {
        options.push(MenuOption { label: songs[i].title.clone(), value: songs[i].url.clone() });
        i = i + 1;
    }
    FavMenu::Menu(
        SongMenu {
            prompt: String::from_str("Select song from favorites: "),
            custom_id: String::from_str("favmenu"),
            placeholder: String::from_str("select song"),
            min_values: 1,
            max_values: 1,
            options,
        },
    )
}

/// The notice once a song was chosen from the menu.
pub fn selection_notice() -> (s: String)
    ensures
        s@ == "playing selection..."@,
{
    String::from_str("playing selection...")
}

/// The reply when nobody chose from the menu in time.
pub fn timed_out() -> (s: String)
    ensures
        s@ == "Timed out"@,
{
    String::from_str("Timed out")
}

/// The folder that holds a guild's favourites, one entry per song.
pub fn favorites_dir(guild_id: u64) -> (s: String)
    ensures
        s@ == "./guild_files/"@ + decimal(guild_id as nat),
{
    let mut s = String::from_str("./guild_files/");
    push_decimal(&mut s, guild_id);
    s
}

/// The data file of the favourite whose entry is at `entry`.
pub fn data_file(entry: &str) -> (s: String)
    ensures
        s@ == entry@ + "/data.txt"@,
{
    let mut s = String::from_str(entry);
    s.append("/data.txt");
    s
}

} // verus!
