//! Trusted declarations and wrappers for the serde_json items this
//! crate calls.

use vstd::prelude::*;

verus! {

/// serde_json's JSON value type, carried opaquely through this crate.
#[verifier::external_type_specification]
#[verifier::external_body]
pub struct ExValue(serde_json::Value);

/// What parsing a given text as JSON yields: a value exactly when the
/// text is syntactically valid JSON, and nothing otherwise.
pub uninterp spec fn json_parse(text: Seq<char>) -> Option<serde_json::Value>;

/// Relies on serde_json::from_str for serde_json::Value: parses the
/// text as JSON; success and the resulting value depend on the text
/// alone. A failed parse is handed back as the parser's diagnostic
/// text, of which nothing is claimed.
#[verifier::external_body]
pub(crate) fn parse_json(text: &str) -> (r: Result<serde_json::Value, String>)
    ensures
        r is Ok <==> json_parse(text@) is Some,
        r matches Ok(v) ==> json_parse(text@) == Some(v),
{
    serde_json::from_str::<serde_json::Value>(text).map_err(|e| format!("{}", e))
}

} // verus!
