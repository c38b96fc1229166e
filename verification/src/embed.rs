use vstd::prelude::*;

verus! {

/// A colour packed as `0xRRGGBB`, the way Discord embeds carry it.
#[derive(Clone, Copy, Debug, PartialEq, Eq, Structural)]
pub struct Colour(pub u32);

/// The packed value of a colour with the given components.
pub open spec fn spec_rgb(r: u8, g: u8, b: u8) -> u32 {
    ((r as u32) << 16u32) | ((g as u32) << 8u32) | (b as u32)
}

impl Colour {
    /// The colour with red `r`, green `g` and blue `b`.
    pub fn from_rgb(r: u8, g: u8, b: u8) -> (c: Colour)
        ensures
            c.0 == spec_rgb(r, g, b),
            c.0 < 0x1000000,
    {
        assert(spec_rgb(r, g, b) < 0x1000000) by (bit_vector);
        Colour(((r as u32) << 16u32) | ((g as u32) << 8u32) | (b as u32))
    }

    /// The red component.
    pub fn r(&self) -> (v: u8)
        ensures
            v == (self.0 >> 16u32) & 0xff,
    {
        let v: u32 = self.0;
        let x: u32 = (v >> 16u32) & 0xff;
        assert(x < 256) by (bit_vector)
            requires x == (v >> 16u32) & 0xff;
        x as u8
    }

    /// The green component.
    pub fn g(&self) -> (v: u8)
        ensures
            v == (self.0 >> 8u32) & 0xff,
    {
        let v: u32 = self.0;
        let x: u32 = (v >> 8u32) & 0xff;
        assert(x < 256) by (bit_vector)
            requires x == (v >> 8u32) & 0xff;
        x as u8
    }

    /// The blue component.
    pub fn b(&self) -> (v: u8)
        ensures
            v == self.0 & 0xff,
    {
        let v: u32 = self.0;
        let x: u32 = v & 0xff;
        assert(x < 256) by (bit_vector)
            requires x == v & 0xff;
        x as u8
    }

    /// The three components, red first.
    pub fn tuple(&self) -> (t: (u8, u8, u8))
        ensures
            t.0 == (self.0 >> 16u32) & 0xff,
            t.1 == (self.0 >> 8u32) & 0xff,
            t.2 == self.0 & 0xff,
    {
        (self.r(), self.g(), self.b())
    }
}

/// A colour gives back the components it was made of.
pub proof fn lemma_rgb_components(r: u8, g: u8, b: u8)
    ensures
        (spec_rgb(r, g, b) >> 16u32) & 0xff == r,
        (spec_rgb(r, g, b) >> 8u32) & 0xff == g,
        spec_rgb(r, g, b) & 0xff == b,
{
    assert((spec_rgb(r, g, b) >> 16u32) & 0xff == r) by (bit_vector);
    assert((spec_rgb(r, g, b) >> 8u32) & 0xff == g) by (bit_vector);
    assert(spec_rgb(r, g, b) & 0xff == b) by (bit_vector);
}

/// The colour of every embed the bot sends: red 149, green 8, blue 2.
pub fn bot_colour() -> (c: Colour)
    ensures
        c.0 == spec_rgb(149, 8, 2),
        c.0 == 0x950802,
{
    assert(spec_rgb(149, 8, 2) == 0x950802) by (bit_vector);
    Colour::from_rgb(149, 8, 2)
}

/// One named field of an embed.
#[derive(Clone, Debug)]
pub struct EmbedField {
    pub name: String,
    pub value: String,
    pub inline: bool,
}

/// The text of a field: its name, its value and whether it stands inline.
pub open spec fn field_view(f: EmbedField) -> (Seq<char>, Seq<char>, bool) {
    (f.name@, f.value@, f.inline)
}

/// The text of a list of fields.
pub open spec fn fields_view(fs: Seq<EmbedField>) -> Seq<(Seq<char>, Seq<char>, bool)> {
    fs.map_values(|f: EmbedField| field_view(f))
}

/// A message embed: what the bot shows in a rich message.
#[derive(Clone, Debug)]
pub struct Embed {
    pub title: String,
    pub description: Option<String>,
    pub colour: Option<Colour>,
    pub url: Option<String>,
    pub thumbnail: Option<String>,
    pub image: Option<String>,
    pub fields: Vec<EmbedField>,
}

/// All an embed shows: its title, description, colour, link, thumbnail,
/// image and fields.
pub open spec fn embed_text(e: Embed) -> (
    Seq<char>,
    Option<Seq<char>>,
    Option<Colour>,
    Option<Seq<char>>,
    Option<Seq<char>>,
    Option<Seq<char>>,
    Seq<(Seq<char>, Seq<char>, bool)>,
) {
    (
        e.title@,
        e.description.deep_view(),
        e.colour,
        e.url.deep_view(),
        e.thumbnail.deep_view(),
        e.image.deep_view(),
        fields_view(e.fields@),
    )
}

/// A field that does not stand inline.
pub fn field(name: String, value: String) -> (f: EmbedField)
    ensures
        f.name@ == name@,
        f.value@ == value@,
        !f.inline,
{
    EmbedField { name, value, inline: false }
}

/// What the bot sends in answer to a command.
#[derive(Debug)]
pub enum Response {
    /// A plain message in the channel the command came from.
    Say(String),
    /// A reply to the message that held the command.
    Reply(String),
    /// A message with a line of text above an embed.
    Card(String, Embed),
    /// Nothing is sent.
    Quiet,
}

/// The response is the plain message `text`.
pub open spec fn says(r: Response, text: Seq<char>) -> bool {
    r matches Response::Say(s) && s@ == text
}

/// The response is a reply holding `text`.
pub open spec fn replies(r: Response, text: Seq<char>) -> bool {
    r matches Response::Reply(s) && s@ == text
}

} // verus!
