//! The JSON boundary of the service clients.
//!
//! A successful response body is decoded as a generic JSON value (or, for
//! the stargazer listing, as a list of values), and each fetched record is
//! printed as one line of JSON. Decoding and printing are done by
//! `serde_json` behind the trusted items below; everything this library
//! states about them goes through two names: `json_of`, the value a given
//! piece of text decodes to, and `json_depth`, how deeply a value's
//! containers nest. The decoder enforces a fixed nesting limit, so every
//! value this library decodes sits within it; printing promises a faithful
//! round trip only within that limit, which is why `encode_line` asks for
//! it. Decode failures are the one error a client operation surfaces: the
//! server already answered success, so they are not retried.

use vstd::prelude::*;

verus! {

#[verifier::external_type_specification]
#[verifier::external_body]
pub struct ExValue(serde_json::Value);

#[verifier::external_type_specification]
#[verifier::external_body]
pub struct ExJsonError(serde_json::Error);

/// The decoder's fixed recursion limit: it refuses text whose containers
/// nest deeper than this, so no decoded value does.
pub const JSON_DEPTH_LIMIT: u64 = 128;

/// The JSON value that the text `s` decodes to, or nothing when `s` is not
/// valid JSON (or nests past the decoder's limit). This names the result of
/// `serde_json::from_str::<Value>`, which depends on the characters alone;
/// no contract of this library says what the name is on given text, so
/// concrete decoding is always exercised through the real call.
pub uninterp spec fn json_of(s: Seq<char>) -> Option<serde_json::Value>;

/// The list of JSON values that the text `s` decodes to when it is a JSON
/// array, or nothing otherwise. Names the result of
/// `serde_json::from_str::<Vec<Value>>`.
pub uninterp spec fn json_list_of(s: Seq<char>) -> Option<Seq<serde_json::Value>>;

/// How deeply the containers (objects and arrays) of a JSON value nest: the
/// measure the decoder's recursion limit bounds. It is a function of the
/// value alone; the trusted items below state only that decoded values stay
/// within `JSON_DEPTH_LIMIT` and that printing round-trips within it.
pub uninterp spec fn json_depth(v: serde_json::Value) -> int;

/// A response body that did not decode as the expected JSON shape.
#[derive(Debug)]
pub struct DecodeError {
    /// The decoder's own description of the failure.
    pub message: String,
}

/// Relies on `serde_json::from_str::<Value>`: deterministic in the input
/// text, returns the decoded value exactly when the text is valid JSON, and
/// its recursion limit keeps every decoded value within `JSON_DEPTH_LIMIT`.
#[verifier::external_body]
fn parse_json_value(s: &str) -> (r: Result<serde_json::Value, serde_json::Error>)
    ensures
        r matches Ok(v) ==> json_of(s@) == Some(v) && json_depth(v) <= JSON_DEPTH_LIMIT as int,
        r is Err ==> json_of(s@) is None,
{
    serde_json::from_str(s)
}

/// Relies on `serde_json::from_str::<Vec<Value>>`: deterministic in the
/// input text, returns the decoded elements in array order exactly when the
/// text is a valid JSON array, each element within `JSON_DEPTH_LIMIT` by
/// the decoder's recursion limit.
#[verifier::external_body]
fn parse_json_array(s: &str) -> (r: Result<Vec<serde_json::Value>, serde_json::Error>)
    ensures
        r matches Ok(v) ==> json_list_of(s@) == Some(v@) && forall|i: int|
            0 <= i < v@.len() ==> #[trigger] json_depth(v@[i]) <= JSON_DEPTH_LIMIT as int,
        r is Err ==> json_list_of(s@) is None,
{
    serde_json::from_str(s)
}

/// Relies on `serde_json::to_string` on a `Value`: it cannot fail (a
/// `Value`'s maps are keyed by strings and its serializer never errors), its
/// compact output contains no newline (the writer emits no whitespace and
/// escapes control characters inside strings), and — with the
/// `float_roundtrip` feature on, and within the decoder's nesting limit,
/// which the `requires` holds to — parsing the output back yields the value
/// that was printed. Deeper values are left out: re-parsing them would hit
/// the decoder's recursion limit (and extreme nesting could exhaust the
/// serializer's own stack).
#[verifier::external_body]
fn value_to_json_text(v: &serde_json::Value) -> (r: String)
    requires
        json_depth(*v) <= JSON_DEPTH_LIMIT as int,
    ensures
        json_of(r@) == Some(*v),
        forall|i: int| 0 <= i < r@.len() ==> r@[i] != '\n',
{
    serde_json::to_string(v).unwrap()
}

/// Relies on the `Display` impl of `serde_json::Error` for a human-readable
/// description; nothing is assumed of the text.
#[verifier::external_body]
fn json_error_text(e: &serde_json::Error) -> String {
    format!("{}", e)
}

/// Decode a successful response body as one generic JSON value.
pub fn decode_value(body: &str) -> (r: Result<serde_json::Value, DecodeError>)
    ensures
        r matches Ok(v) ==> json_of(body@) == Some(v) && json_depth(v) <= JSON_DEPTH_LIMIT as int,
        r is Err ==> json_of(body@) is None,
{
    match parse_json_value(body) {
        Ok(v) => Ok(v),
        Err(e) => Err(DecodeError { message: json_error_text(&e) }),
    }
}

/// Decode a successful response body as a JSON array of values, as the
/// paginated stargazer listing expects.
pub fn decode_list(body: &str) -> (r: Result<Vec<serde_json::Value>, DecodeError>)
    ensures
        r matches Ok(v) ==> json_list_of(body@) == Some(v@) && forall|i: int|
            0 <= i < v@.len() ==> #[trigger] json_depth(v@[i]) <= JSON_DEPTH_LIMIT as int,
        r is Err ==> json_list_of(body@) is None,
{
    match parse_json_array(body) {
        Ok(v) => Ok(v),
        Err(e) => Err(DecodeError { message: json_error_text(&e) }),
    }
}

/// Print one fetched record as a single JSON line: the text holds no
/// newline, and decoding it yields the printed value back. The value must
/// sit within the decoder's nesting limit — every value the decode
/// operations above return does.
pub fn encode_line(v: &serde_json::Value) -> (r: String)
    requires
        json_depth(*v) <= JSON_DEPTH_LIMIT as int,
    ensures
        json_of(r@) == Some(*v),
        forall|i: int| 0 <= i < r@.len() ==> r@[i] != '\n',
{
    value_to_json_text(v)
}

} // verus!
