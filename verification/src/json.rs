//! What the library reads from JSON documents, through `serde_json`.

use vstd::prelude::*;

verus! {

/// The string that the JSON Pointer `pointer` addresses in the JSON document
/// `text`; `None` where `text` is no JSON document, nothing stands at the
/// pointer, or what stands there is not a string.
pub uninterp spec fn json_string_at_pointer(text: Seq<char>, pointer: Seq<char>) -> Option<Seq<char>>;

/// Parses `text` with `serde_json::from_str` into a `serde_json::Value`, looks
/// `pointer` up in it with `Value::pointer`, and takes the string there with
/// `Value::as_str`. The contract claims only that the answer depends on the
/// two texts alone; what JSON and JSON Pointer mean is left to the crate.
#[verifier::external_body]
pub(crate) fn json_string_at(text: &str, pointer: &str) -> (res: Option<String>)
    ensures
        match res {
            Some(s) => json_string_at_pointer(text@, pointer@) == Some(s@),
            None => json_string_at_pointer(text@, pointer@) is None,
        },
{
    match serde_json::from_str::<serde_json::Value>(text) {
        Ok(document) => match document.pointer(pointer) {
            Some(found) => found.as_str().map(String::from),
            None => None,
        },
        Err(_) => None,
    }
}

/// The view of an optional string.
pub open spec fn opt_text(s: Option<String>) -> Option<Seq<char>> {
    match s {
        Some(s) => Some(s@),
        None => None,
    }
}

/// The elements of the JSON array that `text` is, each written out as JSON
/// text: `None` where `text` is no JSON document, `Some(None)` where it is
/// one but no array.
pub uninterp spec fn json_array_items_of(text: Seq<char>) -> Option<Option<Seq<Seq<char>>>>;

/// Parses `text` with `serde_json::from_str` into a `serde_json::Value`, takes
/// its elements with `Value::as_array` and writes each out with its `Display`
/// impl. The contract claims only that the answer depends on the text alone.
#[verifier::external_body]
pub(crate) fn json_array_items(text: &str) -> (res: Option<Option<Vec<String>>>)
    ensures
        match res {
            None => json_array_items_of(text@) is None,
            Some(None) => json_array_items_of(text@) == Some(None::<Seq<Seq<char>>>),
            Some(Some(items)) => json_array_items_of(text@) == Some(Some(items@.map_values(|s: String| s@))),
        },
{
    match serde_json::from_str::<serde_json::Value>(text) {
        Ok(document) => Some(document.as_array().map(|items| items.iter().map(|item| item.to_string()).collect())),
        Err(_) => None,
    }
}

} // verus!
