//! What to call the thing an entry drops.
//!
//! An item's name is not in the loot table: it stands in the item's own
//! description file, as the first quoted text there. So naming an item takes
//! a fetch, which the caller performs between `name_request`, which says what
//! to fetch, and `resolve_name`, which reads the name off the body.

use crate::envelope::{envelope_text, file_text, json_parsed};
use crate::model::{optional_text, text_outcome, Cause, LootError, LootErrorView, LootSpec};
use crate::text::{
    append_chars, chars_of, decimal, decimal_chars, replace_char, string_of, strip_char,
    with_char_replaced, without_char, without_char_is_free,
};
use vstd::prelude::*;

verus! {

/// What is shown for an entry that gives nothing.
pub const NOTHING_NAME: &'static str = "啥都没有";

/// What is shown for an entry that refers to another loot table. The other
/// table is not looked into.
pub const NESTED_TABLE_NAME: &'static str = "这是个战利品集合..";

/// What ends the locator of every description file.
pub const DESCRIPTION_SUFFIX: &'static str = ".ron";

/// The pattern of a quoted text: a double quote, as few characters as
/// possible, a double quote.
pub const QUOTED_PATTERN: &'static str = "\".*?\"";

/// A compiled pattern as `regex` holds it. Nothing of its inside is visible
/// here.
#[verifier::external_type_specification]
#[verifier::external_body]
pub struct ExRegex(regex::Regex);

/// Why `regex` refused a pattern.
#[verifier::external_type_specification]
#[verifier::external_body]
pub struct ExRegexError(regex::Error);

/// What `regex::Regex::new` makes of a pattern, if it accepts the pattern.
pub uninterp spec fn regex_compiled(pattern: Seq<char>) -> Option<regex::Regex>;

/// The first match of a compiled pattern in a text, if there is a match.
pub uninterp spec fn regex_whole_match(compiled: regex::Regex, haystack: Seq<char>) -> Option<
    Seq<char>,
>;

/// Compiles a pattern.
///
/// Trusted: this is `regex::Regex::new`. The contract only gives the outcome
/// its name: it depends on the pattern alone.
#[verifier::external_body]
fn compile(pattern: &str) -> (compiled: Result<regex::Regex, regex::Error>)
    ensures
        compiled matches Ok(made) ==> regex_compiled(pattern@) == Some(made),
        compiled is Err ==> regex_compiled(pattern@) is None,
{
    regex::Regex::new(pattern)
}

/// Searches a text for the first match of a compiled pattern.
///
/// Trusted: this is `regex::Regex::captures`, of which capture group 0, the
/// whole match, is handed out. The contract only gives the outcome its name:
/// it depends on the pattern and the text alone.
#[verifier::external_body]
fn whole_match(compiled: &regex::Regex, haystack: &str) -> (found: Option<String>)
    ensures
        found matches Some(text) ==> regex_whole_match(*compiled, haystack@) == Some(text@),
        found is None ==> regex_whole_match(*compiled, haystack@) is None,
{
    match compiled.captures(haystack) {
        Some(groups) => Some(groups[0].to_owned()),
        None => None,
    }
}

/// The first match of a pattern in a text: nothing where the pattern does
/// not compile, and nothing where it matches nowhere.
pub open spec fn first_match_of(pattern: Seq<char>, haystack: Seq<char>) -> Option<Seq<char>> {
    match regex_compiled(pattern) {
        Some(compiled) => regex_whole_match(compiled, haystack),
        None => None,
    }
}

/// Where the description of an asset is: every `.` of the asset's path
/// becomes a `/`, the result goes behind `base`, and `.ron` ends it.
pub open spec fn description_locator(base: Seq<char>, path: Seq<char>) -> Seq<char> {
    base + with_char_replaced(path, '.', '/') + DESCRIPTION_SUFFIX@
}

/// The locator of the description file of the asset at `path`.
pub fn locate_description(base: &str, path: &str) -> (locator: String)
    ensures
        locator@ == description_locator(base@, path@),
{
    let mut locator = base.to_owned();
    let slashed = replace_char(&chars_of(path), '.', '/');
    locator.append(string_of(&slashed).as_str());
    locator.append(DESCRIPTION_SUFFIX);
    locator
}

/// What naming an entry takes: a fetch, or nothing more.
#[derive(Clone, Debug, PartialEq, Eq)]
pub enum NameRequest {
    /// The name stands in the description file at this locator.
    Fetch(String),
    /// The name is known without a fetch.
    Known(String),
}

/// `NameRequest` with its texts as sequences of characters.
pub enum NameRequestView {
    Fetch(Seq<char>),
    Known(Seq<char>),
}

impl View for NameRequest {
    type V = NameRequestView;

    open spec fn view(&self) -> NameRequestView {
        match *self {
            NameRequest::Fetch(locator) => NameRequestView::Fetch(locator@),
            NameRequest::Known(name) => NameRequestView::Known(name@),
        }
    }
}

/// What naming a reference takes. An item, with or without a quantity, is
/// named by its description file under `base`. A nested table is not
/// expanded: it gets a fixed name, and so does an entry that gives nothing.
pub open spec fn name_request_of(base: Seq<char>, reference: LootSpec<Seq<char>>)
    -> NameRequestView {
    match reference {
        LootSpec::Item(path) => NameRequestView::Fetch(description_locator(base, path)),
        LootSpec::ItemQuantity(path, _, _) => NameRequestView::Fetch(
            description_locator(base, path),
        ),
        LootSpec::LootTable(_) => NameRequestView::Known(NESTED_TABLE_NAME@),
        LootSpec::Nothing => NameRequestView::Known(NOTHING_NAME@),
    }
}

/// Says what has to be fetched to name `reference`, or names it at once.
pub fn name_request(base: &str, reference: &LootSpec<String>) -> (request: NameRequest)
    ensures
        request@ == name_request_of(base@, reference@),
{
    match reference {
        LootSpec::Item(path) => NameRequest::Fetch(locate_description(base, path.as_str())),
        LootSpec::ItemQuantity(path, _, _) => NameRequest::Fetch(
            locate_description(base, path.as_str()),
        ),
        LootSpec::LootTable(_) => NameRequest::Known(NESTED_TABLE_NAME.to_owned()),
        LootSpec::Nothing => NameRequest::Known(NOTHING_NAME.to_owned()),
    }
}

/// The name that a search for a quoted text gives: the match without its
/// quotes, and a name not found where there was no match.
pub open spec fn name_of_match(found: Option<Seq<char>>) -> Result<Seq<char>, LootErrorView> {
    match found {
        Some(quoted) => Ok(without_char(quoted, '"')),
        None => Err(LootErrorView::NameNotFound),
    }
}

/// A name read off a description holds no double quote.
pub proof fn name_has_no_quote(found: Option<Seq<char>>)
    ensures
        name_of_match(found) matches Ok(name) ==> !name.contains('"'),
{
    if let Some(quoted) = found {
        without_char_is_free(quoted, '"');
    }
}

/// Turns the first quoted text of a description into a name by taking its
/// quotes off. `None` stands for a description without a quoted text.
pub fn name_from_match(found: Option<&str>) -> (name: Result<String, LootError>)
    ensures
        text_outcome(name) == name_of_match(optional_text(found)),
{
    match found {
        Some(quoted) => Ok(string_of(&strip_char(&chars_of(quoted), '"'))),
        None => Err(LootError::NameNotFound),
    }
}

/// The display name in the text of a description file: its first quoted
/// text, without the quotes.
pub fn display_name(description: &str) -> (name: Result<String, LootError>)
    ensures
        text_outcome(name) == name_of_match(first_match_of(QUOTED_PATTERN@, description@)),
{
    match compile(QUOTED_PATTERN) {
        Ok(compiled) => match whole_match(&compiled, description) {
            Some(quoted) => name_from_match(Some(quoted.as_str())),
            None => name_from_match(None),
        },
        Err(_) => name_from_match(None),
    }
}

/// A failure as a failed resolution: the cause is kept, the kind says where
/// it happened.
pub open spec fn as_resolution(outcome: Result<Seq<char>, LootErrorView>) -> Result<
    Seq<char>,
    LootErrorView,
> {
    match outcome {
        Ok(name) => outcome,
        Err(error) => Err(LootErrorView::Resolution(error.cause())),
    }
}

/// The name that the fetched body of a description file gives: the file is
/// taken out of its envelope and searched for its first quoted text.
pub open spec fn name_in_body(body: Seq<char>) -> Result<Seq<char>, LootErrorView> {
    match envelope_text(json_parsed(body)) {
        Ok(description) => name_of_match(first_match_of(QUOTED_PATTERN@, description)),
        Err(error) => Err(error),
    }
}

/// The name that a fetch gives, or the failed resolution that it ends in.
/// `None` stands for a fetch that failed.
pub open spec fn resolved_name(body: Option<Seq<char>>) -> Result<Seq<char>, LootErrorView> {
    match body {
        Some(body) => as_resolution(name_in_body(body)),
        None => Err(LootErrorView::Resolution(Cause::Network)),
    }
}

/// Reads an item's display name off the fetched body of its description
/// file. `None` stands for a fetch that failed. Whatever goes wrong, in the
/// fetch, in the envelope or in the search for the name, comes back as a
/// failed resolution with its cause.
pub fn resolve_name(body: Option<&str>) -> (name: Result<String, LootError>)
    ensures
        text_outcome(name) == resolved_name(optional_text(body)),
{
    let body = match body {
        Some(body) => body,
        None => {
            return Err(LootError::Resolution(Cause::Network));
        },
    };
    let found = match file_text(body) {
        Ok(description) => display_name(description.as_str()),
        Err(error) => Err(error),
    };
    match found {
        Ok(name) => Ok(name),
        Err(error) => Err(LootError::Resolution(error.cause())),
    }
}

/// How an entry is shown once it has a name: a quantity range goes in front
/// of the name, as `min-max name`; anything else is shown by its name alone.
pub open spec fn label_of(reference: LootSpec<Seq<char>>, name: Seq<char>) -> Seq<char> {
    match reference {
        LootSpec::ItemQuantity(_, min, max) => decimal(min as nat) + seq!['-'] + decimal(
            max as nat,
        ) + seq![' '] + name,
        _ => name,
    }
}

/// The text shown for an entry whose name is `name`.
pub fn entry_label(reference: &LootSpec<String>, name: &str) -> (label: String)
    ensures
        label@ == label_of(reference@, name@),
{
    match reference {
        LootSpec::ItemQuantity(_, min, max) => {
            let mut label = decimal_chars(*min as u128);
            label.push('-');
            append_chars(&mut label, &decimal_chars(*max as u128));
            label.push(' ');
            append_chars(&mut label, &chars_of(name));
            string_of(&label)
        },
        _ => name.to_owned(),
    }
}

} // verus!
