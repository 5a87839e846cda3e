//! From a fetched body to the text of the file it carries.
//!
//! The content endpoint answers with a JSON object whose `content` member
//! holds the file in base64, broken into lines. The directory endpoint
//! answers with a JSON array of objects that name each file and say where to
//! fetch it.

use crate::model::{
    entries_view, optional_text, text_outcome, valid_table, Loot, LootError, LootErrorView,
    LootSpec, Weight,
};
use crate::text::{
    chars_of, string_of, strip_char, strip_pair, without_char, without_char_is_free, without_pair,
};
use vstd::prelude::*;
use vstd::string::StringExecFns;
use vstd::utf8::{decode_utf8, encode_utf8, encode_utf8_decode_utf8, valid_utf8};

verus! {

/// A JSON document as `serde_json` holds it. Nothing of its inside is visible
/// here; the functions below name what the library reads from one.
#[verifier::external_type_specification]
#[verifier::external_body]
pub struct ExJsonValue(serde_json::Value);

/// Why `serde_json` refused a text.
#[verifier::external_type_specification]
#[verifier::external_body]
pub struct ExJsonError(serde_json::Error);

/// Why `base64` refused a text.
#[verifier::external_type_specification]
#[verifier::external_body]
pub struct ExBase64Error(base64::DecodeError);

/// Why the standard library refused bytes as UTF-8.
#[verifier::external_type_specification]
#[verifier::external_body]
pub struct ExFromUtf8Error(std::string::FromUtf8Error);

/// The document that `serde_json::from_str` reads from a text, if it reads
/// one.
pub uninterp spec fn json_parsed(text: Seq<char>) -> Option<serde_json::Value>;

/// What indexing a JSON document by a member's name gives.
pub uninterp spec fn json_member(value: serde_json::Value, key: Seq<char>) -> serde_json::Value;

/// A JSON document written out by its `Display` implementation.
pub uninterp spec fn json_text(value: serde_json::Value) -> Seq<char>;

/// The elements of a JSON document that is an array.
pub uninterp spec fn json_items(value: serde_json::Value) -> Option<Seq<serde_json::Value>>;

/// The characters of a JSON document that is a string.
pub uninterp spec fn json_string(value: serde_json::Value) -> Option<Seq<char>>;

/// The bytes that `base64::decode` reads from a text, if it accepts the text.
pub uninterp spec fn base64_decoded(text: Seq<char>) -> Option<Seq<u8>>;

/// Parses a text as JSON.
///
/// Trusted: this is `serde_json::from_str` at the type `Value`. The contract
/// only gives the outcome its name: what is read depends on the text alone.
#[verifier::external_body]
fn parse_json(text: &str) -> (parsed: Result<serde_json::Value, serde_json::Error>)
    ensures
        parsed matches Ok(value) ==> json_parsed(text@) == Some(value),
        parsed is Err ==> json_parsed(text@) is None,
{
    serde_json::from_str::<serde_json::Value>(text)
}

/// Looks up a member of a JSON document.
///
/// Trusted: this is `Value`'s `Index<&str>`, which never fails: for a
/// document that is no object, or has no such member, it gives JSON `null`.
#[verifier::external_body]
fn member<'a>(value: &'a serde_json::Value, key: &str) -> (found: &'a serde_json::Value)
    ensures
        *found == json_member(*value, key@),
{
    &value[key]
}

/// Writes a JSON document out.
///
/// Trusted: this is `to_string` on a `Value`, that is its `Display`
/// implementation, which writes compact JSON.
#[verifier::external_body]
fn render_json(value: &serde_json::Value) -> (text: String)
    ensures
        text@ == json_text(*value),
{
    value.to_string()
}

/// The elements of a JSON array.
///
/// Trusted: this is `Value::as_array`, which gives the elements of an array
/// and `None` for any other document.
#[verifier::external_body]
fn array_items<'a>(value: &'a serde_json::Value) -> (items: Option<&'a Vec<serde_json::Value>>)
    ensures
        items matches Some(list) ==> json_items(*value) == Some(list@),
        items is None ==> json_items(*value) is None,
{
    value.as_array()
}

/// The characters of a JSON string.
///
/// Trusted: this is `Value::as_str`, which gives the text of a string and
/// `None` for any other document.
#[verifier::external_body]
fn string_value<'a>(value: &'a serde_json::Value) -> (text: Option<&'a str>)
    ensures
        text matches Some(s) ==> json_string(*value) == Some(s@),
        text is None ==> json_string(*value) is None,
{
    value.as_str()
}

/// Decodes base64 in the standard alphabet.
///
/// Trusted: this is `base64::decode`. The contract only gives the outcome
/// its name: which texts are accepted, and what bytes they stand for, depends
/// on the text alone.
#[verifier::external_body]
fn decode_base64(text: &str) -> (decoded: Result<Vec<u8>, base64::DecodeError>)
    ensures
        decoded matches Ok(bytes) ==> base64_decoded(text@) == Some(bytes@),
        decoded is Err ==> base64_decoded(text@) is None,
{
    base64::decode(text)
}

/// Reads bytes as UTF-8.
///
/// Trusted: this is `String::from_utf8`, which succeeds exactly on valid
/// UTF-8 and then gives the string whose bytes are the ones handed in.
#[verifier::external_body]
fn utf8_string(bytes: Vec<u8>) -> (read: Result<String, std::string::FromUtf8Error>)
    ensures
        read is Ok <==> valid_utf8(bytes@),
        read matches Ok(text) ==> encode_utf8(text@) == bytes@,
{
    String::from_utf8(bytes)
}

/// The payload inside a `content` member as it was written out: the
/// escaped line breaks (a backslash and an `n`) go first, then every double
/// quote.
pub open spec fn cleaned(rendered: Seq<char>) -> Seq<char> {
    without_char(without_pair(rendered, '\\', 'n'), '"')
}

/// A cleaned payload holds no double quote.
pub proof fn cleaned_has_no_quote(rendered: Seq<char>)
    ensures
        !cleaned(rendered).contains('"'),
{
    without_char_is_free(without_pair(rendered, '\\', 'n'), '"');
}

/// Strips the escaped line breaks and the quotes from a written-out
/// `content` member, leaving the base64 text.
pub fn clean_payload(rendered: &str) -> (payload: String)
    ensures
        payload@ == cleaned(rendered@),
{
    let chars = chars_of(rendered);
    let joined = strip_pair(&chars, '\\', 'n');
    let bare = strip_char(&joined, '"');
    string_of(&bare)
}

/// What decoded bytes are worth: their text if they are UTF-8, an encoding
/// error if they are not or if there are none because the base64 was bad.
pub open spec fn text_of_decoded(decoded: Option<Seq<u8>>) -> Result<Seq<char>, LootErrorView> {
    match decoded {
        Some(bytes) if valid_utf8(bytes) => Ok(decode_utf8(bytes)),
        _ => Err(LootErrorView::Encoding),
    }
}

/// Bytes that may be missing, by their view.
pub open spec fn optional_bytes(bytes: Option<Vec<u8>>) -> Option<Seq<u8>> {
    match bytes {
        Some(present) => Some(present@),
        None => None,
    }
}

/// Reads decoded bytes as text. `None` stands for base64 that was refused.
pub fn read_decoded(decoded: Option<Vec<u8>>) -> (text: Result<String, LootError>)
    ensures
        text_outcome(text) == text_of_decoded(optional_bytes(decoded)),
{
    match decoded {
        None => Err(LootError::Encoding),
        Some(bytes) => {
            match utf8_string(bytes) {
                Ok(text) => {
                    proof {
                        encode_utf8_decode_utf8(text@);
                    }
                    Ok(text)
                },
                Err(_) => Err(LootError::Encoding),
            }
        },
    }
}

/// Decodes a base64 payload into the text it carries.
pub fn decode_payload(payload: &str) -> (text: Result<String, LootError>)
    ensures
        text_outcome(text) == text_of_decoded(base64_decoded(payload@)),
{
    match decode_base64(payload) {
        Ok(bytes) => read_decoded(Some(bytes)),
        Err(_) => read_decoded(None),
    }
}

/// The name of the member that carries a file.
pub open spec fn content_key() -> Seq<char> {
    "content"@
}

/// The text of the file inside a parsed envelope; a body that did not parse
/// is a protocol error.
pub open spec fn envelope_text(parsed: Option<serde_json::Value>) -> Result<
    Seq<char>,
    LootErrorView,
> {
    match parsed {
        None => Err(LootErrorView::Protocol),
        Some(envelope) => text_of_decoded(
            base64_decoded(cleaned(json_text(json_member(envelope, content_key())))),
        ),
    }
}

/// The text of the file that a body of the content endpoint carries.
///
/// A body that is no JSON is a protocol error. Otherwise the `content` member
/// is written out, cleaned, decoded as base64 and read as UTF-8; either of
/// the last two failing is an encoding error.
pub fn file_text(body: &str) -> (text: Result<String, LootError>)
    ensures
        text_outcome(text) == envelope_text(json_parsed(body@)),
{
    match parse_json(body) {
        Err(_) => Err(LootError::Protocol),
        Ok(envelope) => {
            let rendered = render_json(member(&envelope, "content"));
            let payload = clean_payload(rendered.as_str());
            decode_payload(payload.as_str())
        },
    }
}

/// A stored file wrapped as the document it stands for: stored files leave
/// out the outer field, so it is put round them before they are parsed.
pub open spec fn framed(text: Seq<char>) -> Seq<char> {
    "(loot: "@ + text + ")"@
}

/// Wraps the text of a stored loot table as a document with the single field
/// `loot`.
pub fn loot_document(text: &str) -> (document: String)
    ensures
        document@ == framed(text@),
{
    let mut document = "(loot: ".to_owned();
    document.append(text);
    document.append(")");
    document
}

/// The document in the fetched body of a stored loot table: a fetch that
/// failed is a network error, and what the envelope refuses stays what it is.
pub open spec fn document_of(body: Option<Seq<char>>) -> Result<Seq<char>, LootErrorView> {
    match body {
        None => Err(LootErrorView::Network),
        Some(body) => match envelope_text(json_parsed(body)) {
            Ok(text) => Ok(framed(text)),
            Err(error) => Err(error),
        },
    }
}

/// Makes the document to parse of what a fetch of a stored loot table
/// brought. `None` stands for a fetch that failed.
pub fn table_document(body: Option<&str>) -> (document: Result<String, LootError>)
    ensures
        text_outcome(document) == document_of(optional_text(body)),
{
    match body {
        None => Err(LootError::Network),
        Some(body) => match file_text(body) {
            Ok(text) => Ok(loot_document(text.as_str())),
            Err(error) => Err(error),
        },
    }
}

/// Turns what a parser made of a document into a table. `None` stands for a
/// document that the parser refused. Entries that are no table (none at all,
/// or a quantity range with its ends swapped) are refused here. Either way
/// the error carries the document.
pub fn decoded_table(document: &str, parsed: Option<Vec<(Weight, LootSpec<String>)>>) -> (table:
    Result<Loot, LootError>)
    ensures
        table is Ok <==> parsed is Some && valid_table(entries_view(parsed->0@)),
        table matches Ok(loot) ==> loot@ == entries_view(parsed->0@),
        table matches Err(error) ==> error@ == LootErrorView::Decode(document@),
{
    match parsed {
        None => Err(LootError::Decode(document.to_owned())),
        Some(entries) => match Loot::new(entries) {
            Some(loot) => Ok(loot),
            None => Err(LootError::Decode(document.to_owned())),
        },
    }
}

/// One line of a directory listing: a file's name and where its content is.
#[derive(Clone, Debug, PartialEq, Eq)]
pub struct ListingEntry {
    pub name: String,
    pub url: String,
}

/// A listing entry as the contracts see it: name, then locator.
pub type ListingEntryView = (Seq<char>, Seq<char>);

impl View for ListingEntry {
    type V = ListingEntryView;

    open spec fn view(&self) -> ListingEntryView {
        (self.name@, self.url@)
    }
}

/// The entries of a listing, each by its view.
pub open spec fn listing_view(entries: Seq<ListingEntry>) -> Seq<ListingEntryView> {
    Seq::new(entries.len(), |i: int| entries[i]@)
}

/// The listing entry that two members make, if both are strings.
pub open spec fn entry_of(name: Option<Seq<char>>, url: Option<Seq<char>>) -> Option<
    ListingEntryView,
> {
    match (name, url) {
        (Some(name), Some(url)) => Some((name, url)),
        _ => None,
    }
}

/// The listing entry that one element of the listing stands for.
pub open spec fn item_entry(item: serde_json::Value) -> Option<ListingEntryView> {
    entry_of(json_string(json_member(item, "name"@)), json_string(json_member(item, "url"@)))
}

/// The listing inside a parsed body: the body must have parsed, be an array,
/// and each element must give its name and its locator as strings.
/// Anything else is a protocol error.
pub open spec fn listing_of(parsed: Option<serde_json::Value>) -> Result<
    Seq<ListingEntryView>,
    LootErrorView,
> {
    match parsed {
        Some(document) => match json_items(document) {
            Some(items) if forall|i: int| 0 <= i < items.len() ==> item_entry(#[trigger] items[i])
                is Some => Ok(Seq::new(items.len(), |i: int| item_entry(items[i])->0)),
            _ => Err(LootErrorView::Protocol),
        },
        None => Err(LootErrorView::Protocol),
    }
}

/// Makes a listing entry of the two members read from one element; `None`
/// stands for a member that is missing or no string.
pub fn listing_entry(name: Option<&str>, url: Option<&str>) -> (entry: Option<ListingEntry>)
    ensures
        match entry {
            Some(made) => entry_of(optional_text(name), optional_text(url)) == Some(made@),
            None => name is None || url is None,
        },
{
    match (name, url) {
        (Some(name), Some(url)) => Some(ListingEntry { name: name.to_owned(), url: url.to_owned() }),
        _ => None,
    }
}

/// Reads the body of the directory endpoint: the files of one tier, in the
/// order in which the endpoint lists them.
pub fn parse_listing(body: &str) -> (listing: Result<Vec<ListingEntry>, LootError>)
    ensures
        match listing {
            Ok(entries) => listing_of(json_parsed(body@)) == Ok::<
                Seq<ListingEntryView>,
                LootErrorView,
            >(listing_view(entries@)),
            Err(error) => listing_of(json_parsed(body@)) is Err && error@
                == LootErrorView::Protocol,
        },
{
    let document = match parse_json(body) {
        Ok(document) => document,
        Err(_) => {
            return Err(LootError::Protocol);
        },
    };
    let items = match array_items(&document) {
        Some(items) => items,
        None => {
            return Err(LootError::Protocol);
        },
    };
    let mut entries: Vec<ListingEntry> = Vec::new();
    let mut i: usize = 0;
    while i < items.len()
        invariant
            i <= items.len(),
            entries.len() == i,
            json_parsed(body@) == Some(document),
            json_items(document) == Some(items@),
            forall|j: int| 0 <= j < i ==> item_entry(#[trigger] items@[j]) == Some(entries@[j]@),
        decreases items.len() - i,
    {
        let name = string_value(member(&items[i], "name"));
        let url = string_value(member(&items[i], "url"));
        match listing_entry(name, url) {
            Some(entry) => entries.push(entry),
            None => {
                assert(item_entry(items@[i as int]) is None);
                return Err(LootError::Protocol);
            },
        }
        i += 1;
    }
    assert(listing_view(entries@) =~= Seq::new(items@.len(), |i: int| item_entry(items@[i])->0));
    Ok(entries)
}

} // verus!
