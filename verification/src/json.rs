//! JSON documents, parsed by the `serde_json` crate.
//!
//! What that crate makes of a text is a function of the text alone that
//! takes a grammar to state, so the contracts here give its results names.
//! A value inside a document is handed on as JSON text of its own, for the
//! next of these functions to take apart. Verus does not look into these
//! bodies.
use vstd::prelude::*;

verus! {

/// The members of the JSON object that `text` is, in the order in which
/// `serde_json` keeps them, each with its value written as JSON text; `None`
/// where `text` is not one JSON object.
pub uninterp spec fn document_members(text: Seq<char>) -> Option<Seq<(Seq<char>, Seq<char>)>>;

/// The items of the JSON array that `text` is, each written as JSON text;
/// `None` where `text` is not one JSON array.
pub uninterp spec fn array_items(text: Seq<char>) -> Option<Seq<Seq<char>>>;

/// The text that the JSON string `text` stands for; `None` where `text` is
/// not one JSON string.
pub uninterp spec fn string_value(text: Seq<char>) -> Option<Seq<char>>;

/// The names and values in `pairs`, as text.
pub open spec fn members_view(pairs: Seq<(String, String)>) -> Seq<(Seq<char>, Seq<char>)> {
    pairs.map_values(|pair: (String, String)| (pair.0@, pair.1@))
}

/// The texts in `items`, by their views.
pub open spec fn items_view(items: Seq<String>) -> Seq<Seq<char>> {
    items.map_values(|item: String| item@)
}

/// `serde_json::from_str`, asked for a `Map`: it succeeds where the whole of
/// `text` is one JSON object. Each value is written out again with
/// `to_string`, which gives its compact JSON text.
#[verifier::external_body]
pub(crate) fn json_members(text: &str) -> (r: Option<Vec<(String, String)>>)
    ensures
        match r {
            Some(members) => document_members(text@) == Some(members_view(members@)),
            None => document_members(text@) is None,
        },
{
    match serde_json::from_str::<serde_json::Map<String, serde_json::Value>>(text) {
        Ok(map) => Some(map.into_iter().map(|(name, value)| (name, value.to_string())).collect()),
        Err(_) => None,
    }
}

/// `serde_json::from_str`, asked for a `Vec` of values: it succeeds where
/// the whole of `text` is one JSON array. Each item is written out again
/// with `to_string`, which gives its compact JSON text.
#[verifier::external_body]
pub(crate) fn json_items(text: &str) -> (r: Option<Vec<String>>)
    ensures
        match r {
            Some(items) => array_items(text@) == Some(items_view(items@)),
            None => array_items(text@) is None,
        },
{
    match serde_json::from_str::<Vec<serde_json::Value>>(text) {
        Ok(items) => Some(items.into_iter().map(|item| item.to_string()).collect()),
        Err(_) => None,
    }
}

/// `serde_json::from_str`, asked for a `String`: it succeeds where the whole
/// of `text` is one JSON string, and gives the text with its escapes
/// resolved.
#[verifier::external_body]
pub(crate) fn json_string(text: &str) -> (r: Option<String>)
    ensures
        match r {
            Some(value) => string_value(text@) == Some(value@),
            None => string_value(text@) is None,
        },
{
    serde_json::from_str::<String>(text).ok()
}

} // verus!
