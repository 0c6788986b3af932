//! JSON encoding of string lists.
//!
//! The encoding is done by the `serde_json` crate. The contract in this file
//! describes that crate and is not proved here.

use crate::text::texts;
use vstd::prelude::*;

verus! {

#[verifier::external_type_specification]
#[verifier::external_body]
pub struct ExJsonError(serde_json::Error);

/// The JSON text of an array of strings, as `serde_json` writes it.
pub uninterp spec fn json_array(items: Seq<Seq<char>>) -> Seq<char>;

/// Calls `serde_json::to_string` on a list of strings. The contract claims
/// that the text returned depends on the strings alone, and that the call
/// succeeds: `serde_json` documents failure only for values whose own
/// serialization fails and for maps with keys that are not strings, and a
/// list of strings is neither.
#[verifier::external_body]
pub(crate) fn encode_strings(items: &Vec<String>) -> (r: Result<String, serde_json::Error>)
    ensures
        r is Ok,
        r matches Ok(text) ==> text@ == json_array(texts(items@)),
{
    serde_json::to_string(items)
}

/// Encodes a list of strings as a JSON array.
pub fn json_list(items: &Vec<String>) -> (text: String)
    ensures
        text@ == json_array(texts(items@)),
{
    match encode_strings(items) {
        Ok(text) => text,
        Err(_) => String::new(),
    }
}

} // verus!
