//! The built-in rendering of a Netrunner card.

use vstd::prelude::*;
use vstd::string::*;
use crate::document::{RenderDocument, RenderDocumentView};
use crate::text::same_text;

verus! {

/// What the rendering reads of a card. The cost, the trash cost, the
/// influence and the position are held as the card data writes them; the
/// other parts are texts.
#[derive(Clone, Debug, PartialEq, Eq)]
pub struct NetrunnerCard {
    pub code: String,
    pub title: String,
    pub text: String,
    pub type_code: String,
    pub keywords: String,
    pub faction_code: String,
    pub pack_code: String,
    pub position: String,
    pub cost: String,
    pub trash_cost: String,
    pub faction_cost: String,
}

/// What a [`NetrunnerCard`] holds, as character sequences.
pub struct NetrunnerCardView {
    pub code: Seq<char>,
    pub title: Seq<char>,
    pub text: Seq<char>,
    pub type_code: Seq<char>,
    pub keywords: Seq<char>,
    pub faction_code: Seq<char>,
    pub pack_code: Seq<char>,
    pub position: Seq<char>,
    pub cost: Seq<char>,
    pub trash_cost: Seq<char>,
    pub faction_cost: Seq<char>,
}

impl View for NetrunnerCard {
    type V = NetrunnerCardView;

    open spec fn view(&self) -> NetrunnerCardView {
        NetrunnerCardView {
            code: self.code@,
            title: self.title@,
            text: self.text@,
            type_code: self.type_code@,
            keywords: self.keywords@,
            faction_code: self.faction_code@,
            pack_code: self.pack_code@,
            position: self.position@,
            cost: self.cost@,
            trash_cost: self.trash_cost@,
            faction_cost: self.faction_cost@,
        }
    }
}

/// The name of the faction with the code `code`; a code that names no known
/// faction stands for itself.
pub open spec fn faction_name(code: Seq<char>) -> Seq<char> {
    if code == "anarch"@ {
        "Anarch"@
    } else if code == "criminal"@ {
        "Criminal"@
    } else if code == "shaper"@ {
        "Shaper"@
    } else if code == "nbn"@ {
        "NBN"@
    } else if code == "jinteki"@ {
        "Jinteki"@
    } else if code == "weyland-consortium"@ {
        "Weyland Consortium"@
    } else if code == "hass-biodroid"@ {
        "Haas-Biodroid"@
    } else {
        code
    }
}

/// The name of the faction with the code `code`.
pub fn faction_code(code: &str) -> (name: &str)
    ensures
        name@ == faction_name(code@),
{
    if same_text(code, "anarch") {
        "Anarch"
    } else if same_text(code, "criminal") {
        "Criminal"
    } else if same_text(code, "shaper") {
        "Shaper"
    } else if same_text(code, "nbn") {
        "NBN"
    } else if same_text(code, "jinteki") {
        "Jinteki"
    } else if same_text(code, "weyland-consortium") {
        "Weyland Consortium"
    } else if same_text(code, "hass-biodroid") {
        "Haas-Biodroid"
    } else {
        code
    }
}

/// The footer: the faction's name, a bullet, the pack, and the card's
/// position in the pack.
pub open spec fn footer_of(card: NetrunnerCardView) -> Seq<char> {
    faction_name(card.faction_code) + " \u{2022} "@ + card.pack_code + " #"@ + card.position
}

/// The address of the card's page.
pub open spec fn page_of(card: NetrunnerCardView) -> Seq<char> {
    "https://netrunnerdb.com/en/card/"@ + card.code
}

/// The address of the card's image.
pub open spec fn image_of(card: NetrunnerCardView) -> Seq<char> {
    "https://card-images.netrunnerdb.com/v2/large/"@ + card.code + ".jpg"@
}

/// The header of the field: the card's type, its keywords and its three
/// costs.
pub open spec fn header_of(card: NetrunnerCardView) -> Seq<char> {
    card.type_code + ": "@ + card.keywords + " - Cost: "@ + card.cost + " - Trash: "@
        + card.trash_cost + " - Influence: "@ + card.faction_cost
}

/// The document that shows a card: its title, the address of its page, its
/// image as the thumbnail, one field with the header above and the card's
/// text as its body, and the footer above. No color is set.
pub open spec fn embed_of(card: NetrunnerCardView) -> RenderDocumentView {
    RenderDocumentView {
        title: Some(card.title),
        color: None,
        url: Some(page_of(card)),
        thumbnail: Some(image_of(card)),
        field: Some((header_of(card), card.text)),
        footer: Some(footer_of(card)),
    }
}

/// Makes the document that shows `card`.
pub fn embed_for(card: &NetrunnerCard) -> (document: RenderDocument)
    ensures
        document@ == embed_of(card@),
{
    let mut footer = String::from_str(faction_code(card.faction_code.as_str()));
    footer.append(" \u{2022} ");
    footer.append(card.pack_code.as_str());
    footer.append(" #");
    footer.append(card.position.as_str());

    let mut url = String::from_str("https://netrunnerdb.com/en/card/");
    url.append(card.code.as_str());

    let mut thumbnail = String::from_str("https://card-images.netrunnerdb.com/v2/large/");
    thumbnail.append(card.code.as_str());
    thumbnail.append(".jpg");

    let mut header = card.type_code.clone();
    header.append(": ");
    header.append(card.keywords.as_str());
    header.append(" - Cost: ");
    header.append(card.cost.as_str());
    header.append(" - Trash: ");
    header.append(card.trash_cost.as_str());
    header.append(" - Influence: ");
    header.append(card.faction_cost.as_str());

    RenderDocument {
        title: Some(card.title.clone()),
        color: None,
        url: Some(url),
        thumbnail: Some(thumbnail),
        field: Some((header, card.text.clone())),
        footer: Some(footer),
    }
}

/// Card data as `serde_json` holds it, carried through as it is.
#[verifier::external_type_specification]
#[verifier::external_body]
pub struct ExCardData(serde_json::Value);

/// The member of a JSON value under a key: what indexing the value with the
/// key gives, which is `null` where the value is no object or has no such
/// key.
pub uninterp spec fn member_of(data: serde_json::Value, key: Seq<char>) -> serde_json::Value;

/// The text that a JSON value holds, where it is a string: what
/// `serde_json::Value::as_str` returns.
pub uninterp spec fn text_of(data: serde_json::Value) -> Option<Seq<char>>;

/// A JSON value written as compact JSON: what its `Display` implementation
/// writes.
pub uninterp spec fn written(data: serde_json::Value) -> Seq<char>;

/// Indexes a `serde_json::Value` with a key. The contract gives the result
/// the name [`member_of`]; the call returns `null` rather than panic where
/// there is no such member.
#[verifier::external_body]
fn member<'a>(data: &'a serde_json::Value, key: &str) -> (found: &'a serde_json::Value)
    ensures
        *found == member_of(*data, key@),
{
    &data[key]
}

/// Calls `serde_json::Value::as_str`. The contract gives the result the name
/// [`text_of`].
#[verifier::external_body]
fn as_text<'a>(data: &'a serde_json::Value) -> (text: Option<&'a str>)
    ensures
        text is Some <==> text_of(*data) is Some,
        text matches Some(t) ==> text_of(*data) == Some(t@),
{
    data.as_str()
}

/// Writes a `serde_json::Value` through its `Display` implementation. The
/// contract gives the result the name [`written`].
#[verifier::external_body]
fn write_out(data: &serde_json::Value) -> (text: String)
    ensures
        text@ == written(*data),
{
    data.to_string()
}

/// The text under `key`, where the card data has a string there.
pub open spec fn text_at(data: serde_json::Value, key: Seq<char>) -> Option<Seq<char>> {
    text_of(member_of(data, key))
}

/// What stands under `key`, as the card data writes it.
pub open spec fn written_at(data: serde_json::Value, key: Seq<char>) -> Seq<char> {
    written(member_of(data, key))
}

/// Whether the card data holds every text that the rendering reads.
pub open spec fn is_complete(data: serde_json::Value) -> bool {
    &&& text_at(data, "code"@) is Some
    &&& text_at(data, "title"@) is Some
    &&& text_at(data, "text"@) is Some
    &&& text_at(data, "type_code"@) is Some
    &&& text_at(data, "keywords"@) is Some
    &&& text_at(data, "faction_code"@) is Some
    &&& text_at(data, "pack_code"@) is Some
}

/// The card that the card data describes.
pub open spec fn card_of(data: serde_json::Value) -> NetrunnerCardView {
    NetrunnerCardView {
        code: text_at(data, "code"@)->0,
        title: text_at(data, "title"@)->0,
        text: text_at(data, "text"@)->0,
        type_code: text_at(data, "type_code"@)->0,
        keywords: text_at(data, "keywords"@)->0,
        faction_code: text_at(data, "faction_code"@)->0,
        pack_code: text_at(data, "pack_code"@)->0,
        position: written_at(data, "position"@),
        cost: written_at(data, "cost"@),
        trash_cost: written_at(data, "trash_cost"@),
        faction_cost: written_at(data, "faction_cost"@),
    }
}

/// Reads the text under `key`.
fn read_text(data: &serde_json::Value, key: &str) -> (text: Option<String>)
    ensures
        text is Some <==> text_at(*data, key@) is Some,
        text matches Some(t) ==> text_at(*data, key@) == Some(t@),
{
    match as_text(member(data, key)) {
        Some(text) => Some(String::from_str(text)),
        None => None,
    }
}

/// Reads what stands under `key`, as the card data writes it.
fn read_written(data: &serde_json::Value, key: &str) -> (text: String)
    ensures
        text@ == written_at(*data, key@),
{
    write_out(member(data, key))
}

impl NetrunnerCard {
    /// Reads a card from card data: the card, where the data holds every
    /// text that the rendering reads, and nothing else.
    pub fn from_json(data: &serde_json::Value) -> (card: Option<NetrunnerCard>)
        ensures
            card is Some <==> is_complete(*data),
            card matches Some(c) ==> c@ == card_of(*data),
    {
        let code = match read_text(data, "code") {
            Some(t) => t,
            None => { return None; },
        };
        let title = match read_text(data, "title") {
            Some(t) => t,
            None => { return None; },
        };
        let text = match read_text(data, "text") {
            Some(t) => t,
            None => { return None; },
        };
        let type_code = match read_text(data, "type_code") {
            Some(t) => t,
            None => { return None; },
        };
        let keywords = match read_text(data, "keywords") {
            Some(t) => t,
            None => { return None; },
        };
        let faction_code = match read_text(data, "faction_code") {
            Some(t) => t,
            None => { return None; },
        };
        let pack_code = match read_text(data, "pack_code") {
            Some(t) => t,
            None => { return None; },
        };
        Some(
            NetrunnerCard {
                code,
                title,
                text,
                type_code,
                keywords,
                faction_code,
                pack_code,
                position: read_written(data, "position"),
                cost: read_written(data, "cost"),
                trash_cost: read_written(data, "trash_cost"),
                faction_cost: read_written(data, "faction_cost"),
            },
        )
    }
}

/// Makes the document that shows the card that `card` describes, where the
/// data holds every text that the rendering reads, and none where it does
/// not.
pub fn create_embed(card: &serde_json::Value) -> (document: Option<RenderDocument>)
    ensures
        document is Some <==> is_complete(*card),
        document matches Some(d) ==> d@ == embed_of(card_of(*card)),
{
    match NetrunnerCard::from_json(card) {
        Some(read) => Some(embed_for(&read)),
        None => None,
    }
}

} // verus!
