//! The JSON values that travel through the protocol, and the few operations
//! of `serde_json` that the library relies on.

use vstd::prelude::*;

verus! {

#[verifier::external_type_specification]
#[verifier::external_body]
pub struct ExValue(serde_json::Value);

#[verifier::external_type_specification]
#[verifier::external_body]
pub struct ExError(serde_json::Error);

/// The JSON string literal (quoted and escaped) that `serde_json` writes for a string.
pub uninterp spec fn json_quoted(s: Seq<char>) -> Seq<char>;

/// Whether `serde_json` reads the text as exactly one JSON value.
pub uninterp spec fn is_json_text(s: Seq<char>) -> bool;

/// No line break among the characters.
pub open spec fn no_newline(s: Seq<char>) -> bool {
    forall|i: int| 0 <= i < s.len() ==> s[i] != '\n'
}

/// Relies on `serde_json::to_string` on a `str`: it writes the string as a
/// JSON string literal, in which control characters are escaped. Writing into memory cannot fail for a `str`.
#[verifier::external_body]
pub(crate) fn quote(s: &str) -> (r: String)
    ensures
        r@ == json_quoted(s@),
        no_newline(r@),
{
    match serde_json::to_string(s) {
        Ok(t) => t,
        Err(_) => String::new(),
    }
}

/// What the library reads of a parsed message: its `id` member, and that
/// member as an unsigned integer if it is one; its `result` member; whether
/// it has `method` and `params` members; and the whole message.
pub struct Envelope {
    pub id: Option<Option<u64>>,
    pub result: Option<serde_json::Value>,
    pub has_method: bool,
    pub has_params: bool,
    pub message: serde_json::Value,
}

/// Of a JSON text that is an object: its `id` member as an unsigned integer
/// (`Some(None)` where the member is there but is none), and whether it has
/// `result`, `method` and `params` members.
pub uninterp spec fn line_shape(s: Seq<char>) -> (Option<Option<u64>>, bool, bool, bool);

/// Relies on `serde_json::from_str` into a `Value`, which succeeds exactly
/// when the text is one JSON value, and on `Value::get` with a string key and
/// `Value::as_u64` to read the members of the message.
#[verifier::external_body]
pub(crate) fn parse(line: &str) -> (r: Result<Envelope, serde_json::Error>)
    ensures
        r is Ok <==> is_json_text(line@),
        r matches Ok(e) ==> line_shape(line@) == (e.id, e.result is Some, e.has_method, e.has_params),
{
    match serde_json::from_str::<serde_json::Value>(line) {
        Ok(v) => Ok(Envelope {
            id: v.get("id").map(serde_json::Value::as_u64),
            result: v.get("result").cloned(),
            has_method: v.get("method").is_some(),
            has_params: v.get("params").is_some(),
            message: v,
        }),
        Err(e) => Err(e),
    }
}

} // verus!
