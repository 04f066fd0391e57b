//! Wire framing and text decoding for the request/response protocol.
//!
//! A request is UTF-8 text terminated by a single newline; a response is
//! UTF-8 text (possibly empty) terminated by a single null byte. The
//! functions here build the outgoing bytes and interpret the raw buffer
//! that one delimiter-bounded read hands back.

use vstd::prelude::*;
use vstd::string::StringExecFns;
use vstd::utf8::{
    decode_utf8, encode_utf8, encode_utf8_decode_utf8, encode_utf8_valid_utf8, valid_utf8,
};

use crate::errors::Error;

verus! {

/// A read buffer holds a complete response frame exactly when it is
/// non-empty and ends with the null terminator. A read that stops at the
/// first null byte keeps it as the last byte; a read cut short by end of
/// stream does not, so such a buffer is an incomplete frame.
pub open spec fn frame_complete(buf: Seq<u8>) -> bool {
    buf.len() > 0 && buf.last() == 0u8
}

/// The payload of a complete frame: every byte before the terminator.
pub open spec fn frame_payload(buf: Seq<u8>) -> Seq<u8> {
    buf.drop_last()
}

/// What decoding one raw read buffer yields: the frame's payload as
/// text, or the error that the buffer's shape dictates. An incomplete
/// frame means the stream ended early; payload bytes that are not valid
/// UTF-8 are an encoding failure; an empty payload is a genuinely empty
/// response, not an error.
pub open spec fn spec_decode_response(buf: Seq<u8>) -> Result<Seq<char>, Error> {
    if !frame_complete(buf) {
        Err(Error::ProtocolError)
    } else if !valid_utf8(frame_payload(buf)) {
        Err(Error::EncodingError)
    } else {
        Ok(decode_utf8(frame_payload(buf)))
    }
}

/// Relies on String::from_utf8: returns the decoded string exactly when
/// the bytes are valid UTF-8, and nothing otherwise.
#[verifier::external_body]
fn utf8_to_string(bytes: Vec<u8>) -> (r: Option<String>)
    ensures
        r is Some <==> valid_utf8(bytes@),
        r matches Some(s) ==> s@ == decode_utf8(bytes@),
{
    String::from_utf8(bytes).ok()
}

/// Decodes one raw read buffer, as handed back by a read that stops
/// after the first null byte and keeps it, into the response text with
/// the terminator stripped.
pub fn decode_response(buf: Vec<u8>) -> (r: Result<String, Error>)
    ensures
        r is Ok <==> spec_decode_response(buf@) is Ok,
        r matches Ok(s) ==> Ok::<Seq<char>, Error>(s@) == spec_decode_response(buf@),
        r matches Err(e) ==> Err::<Seq<char>, Error>(e) == spec_decode_response(buf@),
{
    if buf.len() == 0 {
        return Err(Error::ProtocolError);
    }
    let last = buf[buf.len() - 1];
    if last != 0u8 {
        return Err(Error::ProtocolError);
    }
    let ghost whole = buf@;
    let mut payload = buf;
    payload.pop();
    proof {
        assert(payload@ =~= frame_payload(whole));
    }
    match utf8_to_string(payload) {
        Some(s) => Ok(s),
        None => Err(Error::EncodingError),
    }
}

/// Frames one request: the text followed by a single newline, the only
/// framing the wire protocol applies to the outgoing direction.
pub fn frame_request(text: &str) -> (r: String)
    ensures
        r@ == text@.push('\n'),
{
    let framed = String::from_str(text).concat("\n");
    proof {
        reveal_strlit("\n");
        assert(framed@ =~= text@.push('\n'));
    }
    framed
}

/// What the standard library's whitespace trim returns for a given text.
pub uninterp spec fn trim_of(text: Seq<char>) -> Seq<char>;

/// Relies on str::trim: returns the text with leading and trailing
/// whitespace removed; the result depends on the characters alone.
#[verifier::external_body]
fn trim_text(text: &str) -> (r: String)
    ensures
        r@ == trim_of(text@),
{
    text.trim().to_owned()
}

/// Prepares caller text for transmission: trims surrounding whitespace,
/// then frames the result with the terminating newline.
pub fn encode_command(text: &str) -> (r: String)
    ensures
        r@ == trim_of(text@).push('\n'),
{
    let trimmed = trim_text(text);
    frame_request(trimmed.as_str())
}

/// The line that asks the tool to quit at once, without prompting; sent
/// on a graceful close before the child is reaped.
pub fn quit_request() -> (r: String)
    ensures
        r@ == seq!['q', '!', '\n'],
{
    let r = frame_request("q!");
    proof {
        reveal_strlit("q!");
        assert(r@ =~= seq!['q', '!', '\n']);
    }
    r
}

/// The round trip one exchange guarantees: a subprocess answer of
/// exactly the bytes `payload` followed by the frame terminator decodes
/// to `payload`'s text, with the terminator excluded.
pub proof fn lemma_response_round_trip(payload: Seq<u8>)
    requires
        valid_utf8(payload),
    ensures
        spec_decode_response(payload.push(0u8)) == Ok::<Seq<char>, Error>(decode_utf8(payload)),
{
    assert(frame_payload(payload.push(0u8)) =~= payload);
}

/// If the subprocess echoes back the UTF-8 encoding of text `t`,
/// terminated by the frame terminator, the decoded response is `t`
/// itself: no byte of the payload and no terminator leaks in or out.
pub proof fn lemma_echo_round_trip(t: Seq<char>)
    ensures
        spec_decode_response(encode_utf8(t).push(0u8)) == Ok::<Seq<char>, Error>(t),
{
    encode_utf8_valid_utf8(t);
    encode_utf8_decode_utf8(t);
    lemma_response_round_trip(encode_utf8(t));
}

} // verus!
