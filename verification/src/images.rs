use vstd::prelude::*;

use crate::embed::Embed;
use crate::misc::random_below;

verus! {

/// The serialization of the absolute URL that `input` parses to, or `None`
/// when it does not parse as one.
pub uninterp spec fn url_serialization(input: Seq<char>) -> Option<Seq<char>>;

#[verifier::external_type_specification]
#[verifier::external_body]
pub struct ExUrlParseError(url::ParseError);

/// Parses `input` as an absolute URL with `url::Url::parse` and gives back
/// its serialization (`String::from(Url)`). Parsing depends on the input
/// alone; what it yields is named `url_serialization` and not spelled out.
#[verifier::external_body]
fn parse_url(input: &str) -> (r: Result<String, url::ParseError>)
    ensures
        r is Ok <==> url_serialization(input@) is Some,
        r matches Ok(s) ==> url_serialization(input@) == Some(s@),
{
    match url::Url::parse(input) {
        Ok(u) => Ok(String::from(u)),
        Err(e) => Err(e),
    }
}

/// Why a post gives no image link.
#[derive(Clone, Copy, Debug, PartialEq, Eq, Structural)]
pub enum ImageError {
    /// The post's file has no link.
    Missing,
    /// The link does not parse as a URL.
    Unparsable,
}

/// The link of a post's image, normalised as a URL: `file_url` is the link
/// of the post's file, if it has one.
pub fn post_image(file_url: Option<&str>) -> (r: Result<String, ImageError>)
    ensures
        match file_url {
            None => r == Err::<String, ImageError>(ImageError::Missing),
            Some(u) => match url_serialization(u@) {
                None => r == Err::<String, ImageError>(ImageError::Unparsable),
                Some(s) => r matches Ok(v) && v@ == s,
            },
        },
{
    match file_url {
        None => Err(ImageError::Missing),
        Some(u) => match parse_url(u) {
            Ok(s) => Ok(s),
            Err(_) => Err(ImageError::Unparsable),
        },
    }
}

/// How many posts `e621` draws from, and the bound of the draw.
pub const POST_LIMIT: usize = 300;

/// The tags `e621` searches with: no Flash, no video, nothing with children,
/// safe rating only.
pub fn search_tags() -> (tags: Vec<&'static str>)
    ensures
        tags@.len() == 4,
        tags@[0]@ == "-flash"@,
        tags@[1]@ == "-webm"@,
        tags@[2]@ == "-child"@,
        tags@[3]@ == "rating:s"@,
{
    vec!["-flash", "-webm", "-child", "rating:s"]
}

/// The reply for each post that could not be fetched.
pub fn fetch_failed() -> (s: String)
    ensures
        s@ == "unable to source image"@,
{
    String::from_str("unable to source image")
}

/// The embed that answers `e621` with the image at place `r` among `urls`,
/// addressed to the author by their tag; `None` when there is no such image.
pub fn image_embed(urls: &Vec<String>, r: usize, author: &str) -> (e: Option<Embed>)
    ensures
        e is Some <==> r < urls@.len(),
        e matches Some(e) ==> {
            &&& e.title@ == "shut the fuck up "@ + author@
            &&& e.image.deep_view() == Some(urls@[r as int]@)
            &&& e.description is None
            &&& e.colour is None
            &&& e.url is None
            &&& e.thumbnail is None
            &&& e.fields@.len() == 0
        },
{
    if r < urls.len() {
        let mut title = String::from_str("shut the fuck up ");
        title.append(author);
        Some(
            Embed {
                title,
                description: None,
                colour: None,
                url: None,
                thumbnail: None,
                image: Some(urls[r].clone()),
                fields: Vec::new(),
            },
        )
    } else {
        None
    }
}

/// `e621`: an image drawn at random from the first 299 of the links found
/// (`urls`, in the order the search yielded them), addressed to the author.
/// The draw depends on chance; `None` when it falls past the links found,
/// so that there is no image to show.
pub fn e621(urls: &Vec<String>, author: &str) -> (e: Option<Embed>)
    ensures
        urls@.len() >= 299 ==> e is Some,
        urls@.len() == 0 ==> e is None,
        e matches Some(e) ==> exists|r: int| 0 <= r < 299 && r < urls@.len() && e.image.deep_view() == Some(
            #[trigger] urls@[r]@,
        ) && e.title@ == "shut the fuck up "@ + author@,
{
    let r = random_below(299);
    image_embed(urls, r, author)
}

} // verus!
