//! Reading the text of a report with the `serde_json` crate.
//!
//! Nothing in this module is proved. Each function hands one call on to
//! `serde_json`, and its contract gives the outcome a name. A name claims one
//! thing only: the call is a function of its arguments. Errors are handed on
//! as they come; what to make of them is decided elsewhere.

use vstd::prelude::*;

verus! {

/// `serde_json::Error`: why a text could not be parsed.
#[verifier::external_type_specification]
#[verifier::external_body]
pub struct ExError(serde_json::Error);

/// `serde_json::Value`: a parsed document.
#[verifier::external_type_specification]
#[verifier::external_body]
pub struct ExValue(serde_json::Value);

/// What `serde_json::from_str` makes of `text`; `None` where it rejects it.
pub uninterp spec fn document_of(text: Seq<char>) -> Option<serde_json::Value>;

/// What `Value::get` finds in a document under the key `key`: the member of
/// that name where the document is an object that has one.
pub uninterp spec fn member_of(document: serde_json::Value, key: Seq<char>) -> Option<
    serde_json::Value,
>;

/// What `Value::as_str` returns for a document: its text where it is a string.
pub uninterp spec fn text_of(document: serde_json::Value) -> Option<Seq<char>>;

/// Calls `serde_json::from_str` for a `Value`.
#[verifier::external_body]
pub(crate) fn parse_document(text: &str) -> (outcome: Result<serde_json::Value, serde_json::Error>)
    ensures
        match outcome {
            Ok(document) => document_of(text@) == Some(document),
            Err(_) => document_of(text@) is None,
        },
{
    serde_json::from_str(text)
}

/// Calls `Value::get` with a key.
#[verifier::external_body]
pub(crate) fn member<'a>(document: &'a serde_json::Value, key: &str) -> (found: Option<
    &'a serde_json::Value,
>)
    ensures
        match found {
            Some(value) => member_of(*document, key@) == Some(*value),
            None => member_of(*document, key@) is None,
        },
{
    document.get(key)
}

/// Calls `Value::as_str`.
#[verifier::external_body]
pub(crate) fn as_text<'a>(document: &'a serde_json::Value) -> (text: Option<&'a str>)
    ensures
        match text {
            Some(text) => text_of(*document) == Some(text@),
            None => text_of(*document) is None,
        },
{
    document.as_str()
}

} // verus!
