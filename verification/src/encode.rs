//! Wrapping what the engine answered into a tagged result.
//!
//! The engine's answer arrives as a `Result`: the payload, or the engine's
//! own account of what went wrong. Nothing is altered on the way: a payload
//! goes under the success marker as it is, a message under the failure
//! marker word for word.

use vstd::prelude::*;

use crate::outcome::{
    error_tuple, ok_binary_tuple, ok_string_tuple, Either, StringResultTuple, Tagged,
};

verus! {

/// The compact JSON text of `document`.
pub uninterp spec fn json_text(document: serde_json::Value) -> Seq<char>;

/// Calls `to_string` on a `serde_json::Value`, which writes the document
/// through its `Display` impl as compact JSON. The text depends on the
/// document alone and is named by [`json_text`].
#[verifier::external_body]
fn render_json(document: &serde_json::Value) -> (text: String)
    ensures
        text@ == json_text(*document),
{
    document.to_string()
}

/// The result of a text operation whose engine call ended in `outcome`.
pub open spec fn text_encoding(outcome: Result<Seq<char>, Seq<char>>) -> Tagged {
    match outcome {
        Ok(text) => Tagged::ok_text(text),
        Err(message) => Tagged::failure(message),
    }
}

/// The result of a binary operation whose engine call ended in `outcome`.
pub open spec fn binary_encoding(outcome: Result<Seq<u8>, Seq<char>>) -> Tagged {
    match outcome {
        Ok(bytes) => Tagged::ok_binary(bytes),
        Err(message) => Tagged::failure(message),
    }
}

/// The engine's answer to a text operation, by its content.
pub open spec fn text_outcome(outcome: Result<String, String>) -> Result<Seq<char>, Seq<char>> {
    match outcome {
        Ok(text) => Ok(text@),
        Err(message) => Err(message@),
    }
}

/// The engine's answer to a binary operation, by its content.
pub open spec fn binary_outcome(outcome: Result<Vec<u8>, String>) -> Result<
    Seq<u8>,
    Seq<char>,
> {
    match outcome {
        Ok(bytes) => Ok(bytes@),
        Err(message) => Err(message@),
    }
}

/// The engine's answer to a compilation, by the text of the compiled
/// document.
pub open spec fn document_outcome(outcome: Result<serde_json::Value, String>) -> Result<
    Seq<char>,
    Seq<char>,
> {
    match outcome {
        Ok(document) => Ok(json_text(document)),
        Err(message) => Err(message@),
    }
}

/// Encodes the engine's answer to an operation that yields text: vector
/// markup or a standalone document.
pub fn string_result(outcome: Result<String, String>) -> (result: StringResultTuple)
    ensures
        result@ == text_encoding(text_outcome(outcome)),
{
    match outcome {
        Ok(text) => ok_string_tuple(text),
        Err(message) => error_tuple(message),
    }
}

/// Encodes the engine's answer to an operation that yields bytes: a raster
/// image or a paginated document. Success is a binary tuple, failure a text
/// tuple.
pub fn binary_result(outcome: Result<Vec<u8>, String>) -> (result: Either)
    ensures
        result@ == binary_encoding(binary_outcome(outcome)),
{
    match outcome {
        Ok(bytes) => Either::BinaryTuple(ok_binary_tuple(bytes)),
        Err(message) => Either::StringTuple(error_tuple(message)),
    }
}

/// Encodes the engine's answer to a compilation: the compiled document is
/// returned as its JSON text.
pub fn document_result(outcome: Result<serde_json::Value, String>) -> (result: StringResultTuple)
    ensures
        result@ == text_encoding(document_outcome(outcome)),
{
    match outcome {
        Ok(document) => ok_string_tuple(render_json(&document)),
        Err(message) => error_tuple(message),
    }
}

} // verus!
