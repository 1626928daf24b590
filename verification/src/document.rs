//! What the bridge reads from a JSON document.

use vstd::prelude::*;
use crate::json::{as_string, json_member, json_str, member, parse, parsed_json};
use crate::text::option_text;

verus! {

/// The string that `doc` holds under `key`: `None` where it has no such
/// member or the member is no string.
pub open spec fn text_member(doc: serde_json::Value, key: Seq<char>) -> Option<Seq<char>> {
    match json_member(doc, key) {
        Some(value) => json_str(value),
        None => None,
    }
}

/// Whether `text` is a JSON document.
pub open spec fn is_json(text: Seq<char>) -> bool {
    parsed_json(text) is Some
}

/// Reads the string that `doc` holds under `key`.
pub fn text_member_of(doc: &serde_json::Value, key: &str) -> (r: Option<String>)
    ensures
        option_text(r) == text_member(*doc, key@),
{
    match member(doc, key) {
        Some(value) => match as_string(value) {
            Some(s) => Some(s.to_owned()),
            None => None,
        },
        None => None,
    }
}

/// Tells whether `text` is a JSON document.
pub fn is_document(text: &str) -> (b: bool)
    ensures
        b == is_json(text@),
{
    match parse(text) {
        Ok(_) => true,
        Err(_) => false,
    }
}

} // verus!
