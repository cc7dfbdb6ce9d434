//! Reading the caller's text as a JSON document.

use vstd::prelude::*;

use crate::grammar::Grammar;
use crate::outcome::{error_tuple, StringResultTuple, Tagged};

verus! {

#[verifier::external_type_specification]
#[verifier::external_body]
pub struct ExValue(serde_json::Value);

#[verifier::external_type_specification]
#[verifier::external_body]
pub struct ExJsonError(serde_json::Error);

/// The document that `text` parses to, if it is JSON at all.
pub uninterp spec fn json_document(text: Seq<char>) -> Option<serde_json::Value>;

/// Whether `text` is a JSON document.
pub open spec fn is_json(text: Seq<char>) -> bool {
    json_document(text) is Some
}

/// Calls `serde_json::from_str` for a `serde_json::Value`. The parser reads
/// nothing but its argument, so its answer is named by [`json_document`]:
/// the document on success, none where the parser reports an error.
#[verifier::external_body]
fn parse_json(text: &str) -> (parsed: Result<serde_json::Value, serde_json::Error>)
    ensures
        match parsed {
            Ok(document) => json_document(text@) == Some(document),
            Err(_) => json_document(text@) is None,
        },
{
    serde_json::from_str(text)
}

/// What intake makes of `text` under `grammar`: the document, or the failure
/// that names the grammar.
pub open spec fn intake_spec(grammar: Grammar, text: Seq<char>) -> Result<
    serde_json::Value,
    Tagged,
> {
    match json_document(text) {
        Some(document) => Ok(document),
        None => Err(Tagged::failure(grammar.invalid_json_message())),
    }
}

/// Parses `text` as a JSON document. Text that is not JSON, the empty text
/// included, is answered with the failure that names `grammar`.
pub fn intake(grammar: Grammar, text: &str) -> (r: Result<serde_json::Value, StringResultTuple>)
    ensures
        match r {
            Ok(document) => intake_spec(grammar, text@) == Ok::<serde_json::Value, Tagged>(
                document,
            ),
            Err(failure) => intake_spec(grammar, text@) == Err::<serde_json::Value, Tagged>(
                failure@,
            ),
        },
{
    match parse_json(text) {
        Ok(document) => Ok(document),
        Err(_) => Err(error_tuple(grammar.invalid_json())),
    }
}

} // verus!
