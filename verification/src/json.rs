//! JSON interpretation of response text.
//!
//! The tool answers some commands with JSON-encoded text. This crate
//! does not validate any schema: a response either parses as JSON or it
//! does not, and an empty response is a failure kind of its own, since
//! the tool answers an unrecognized command with no output at all.

use vstd::prelude::*;

use crate::errors::Error;
use crate::serde_specs::{json_parse, parse_json};

verus! {

/// Interprets one response text as JSON.
///
/// Empty text fails with its own kind, never with a parse error and
/// never as a JSON null: it signals that the command produced no output,
/// as opposed to output that failed to parse.
pub fn decode_json_response(text: &str) -> (r: Result<serde_json::Value, Error>)
    ensures
        text@.len() == 0 ==> (r matches Err(e) && e == Error::EmptyResponse),
        text@.len() > 0 && json_parse(text@) is Some ==> (r matches Ok(v)
            && json_parse(text@) == Some(v)),
        text@.len() > 0 && json_parse(text@) is None ==> (r matches Err(e)
            && e matches Error::MalformedJson(_)),
{
    if text.is_empty() {
        return Err(Error::EmptyResponse);
    }
    match parse_json(text) {
        Ok(v) => Ok(v),
        Err(msg) => Err(Error::MalformedJson(msg)),
    }
}

} // verus!
