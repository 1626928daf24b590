//! The JSON documents of `serde_json`, as far as the bridge needs them.
//!
//! A document is opaque to the verifier. What `serde_json` computes is given
//! a name here, and each function below states that its result is that name
//! applied to its arguments. Nothing in this file is proved: the contracts
//! are taken from the source of `serde_json`.

use vstd::prelude::*;

verus! {

/// `serde_json::Value`, carried through as an opaque value.
#[verifier::external_type_specification]
#[verifier::external_body]
pub struct ExValue(serde_json::Value);

/// `serde_json::Error`, carried through as an opaque value.
#[verifier::external_type_specification]
#[verifier::external_body]
pub struct ExError(serde_json::Error);

/// The document that `serde_json::from_str` reads from `text`, or `None`
/// where it reports an error.
pub uninterp spec fn parsed_json(text: Seq<char>) -> Option<serde_json::Value>;

/// What `serde_json::Value::get` finds in `doc` under the string index `key`.
pub uninterp spec fn json_member(doc: serde_json::Value, key: Seq<char>) -> Option<serde_json::Value>;

/// What `serde_json::Value::as_str` returns for `value`.
pub uninterp spec fn json_str(value: serde_json::Value) -> Option<Seq<char>>;

/// The compact text that the `Display` impl of `serde_json::Value` writes.
pub uninterp spec fn json_text(value: serde_json::Value) -> Seq<char>;

/// The document that `serde_json::Value::from` makes of a string slice.
pub uninterp spec fn json_string(text: Seq<char>) -> serde_json::Value;

/// The document that `serde_json::Value::from` makes of an `i64`.
pub uninterp spec fn json_integer(n: i64) -> serde_json::Value;

/// The document that `serde_json::Value::from_iter` collects from pairs of a
/// key and a document.
pub uninterp spec fn json_object(members: Seq<(Seq<char>, serde_json::Value)>) -> serde_json::Value;

/// The pairs of a member list, each key taken by its view.
pub open spec fn member_views(members: Seq<(String, serde_json::Value)>) -> Seq<
    (Seq<char>, serde_json::Value),
> {
    Seq::new(members.len(), |i: int| (members[i].0@, members[i].1))
}

/// Calls `serde_json::from_str` for a `serde_json::Value`. The contract
/// claims that the outcome depends on the text alone: `Ok` with the named
/// document, or an error exactly where the name is `None`.
#[verifier::external_body]
pub(crate) fn parse(text: &str) -> (r: Result<serde_json::Value, serde_json::Error>)
    ensures
        match r {
            Ok(doc) => parsed_json(text@) == Some(doc),
            Err(_) => parsed_json(text@) is None,
        },
{
    serde_json::from_str::<serde_json::Value>(text)
}

/// Calls `serde_json::Value::get` with a string index. The contract claims
/// only that the result is the named member, if there is one.
#[verifier::external_body]
pub(crate) fn member<'a>(doc: &'a serde_json::Value, key: &str) -> (r: Option<&'a serde_json::Value>)
    ensures
        match r {
            Some(value) => json_member(*doc, key@) == Some(*value),
            None => json_member(*doc, key@) is None,
        },
{
    doc.get(key)
}

/// Calls `serde_json::Value::as_str`. The contract claims only that the
/// result is the named string, if there is one.
#[verifier::external_body]
pub(crate) fn as_string<'a>(value: &'a serde_json::Value) -> (r: Option<&'a str>)
    ensures
        match r {
            Some(s) => json_str(*value) == Some(s@),
            None => json_str(*value) is None,
        },
{
    value.as_str()
}

/// Calls `to_string` on a `serde_json::Value`, which goes through its
/// `Display` impl. The contract claims only that the result is the named
/// text.
#[verifier::external_body]
pub(crate) fn render(value: &serde_json::Value) -> (r: String)
    ensures
        r@ == json_text(*value),
{
    value.to_string()
}

/// Calls `serde_json::Value::from` on a string slice, which makes a
/// `Value::String`. The contract names the result.
#[verifier::external_body]
pub(crate) fn string_value(text: &str) -> (r: serde_json::Value)
    ensures
        r == json_string(text@),
{
    serde_json::Value::from(text)
}

/// Calls `serde_json::Value::from` on an `i64`, which makes a
/// `Value::Number`. The contract names the result.
#[verifier::external_body]
pub(crate) fn integer_value(n: i64) -> (r: serde_json::Value)
    ensures
        r == json_integer(n),
{
    serde_json::Value::from(n)
}

/// Calls `serde_json::Value::from_iter` on the pairs, which makes a
/// `Value::Object`. The contract names the result.
#[verifier::external_body]
pub(crate) fn object_value(members: Vec<(String, serde_json::Value)>) -> (r: serde_json::Value)
    ensures
        r == json_object(member_views(members@)),
{
    serde_json::Value::from_iter(members)
}

/// `clone` on a `serde_json::Value`, whose impl is derived. The contract
/// claims that the copy equals the original.
pub assume_specification[ <serde_json::Value as Clone>::clone ](
    value: &serde_json::Value,
) -> (r: serde_json::Value)
    ensures
        r == *value,
;

} // verus!
