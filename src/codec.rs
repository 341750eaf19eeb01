//! The line codec: the text of outgoing requests and notifications, and the
//! classification of incoming lines into responses and events.

use vstd::prelude::*;
use serde_json::Value;
use crate::json::{is_json_text, json_quoted, line_shape, no_newline, parse, quote};
use crate::text::{decimal, lemma_decimal_no_newline, object_text, push_decimal, write_object};

verus! {

/// A message read from the backend.
#[derive(Debug)]
pub enum Incoming {
    /// The answer to the request that carried `id`.
    Response { id: u64, result: Value },
    /// A message the backend sent unasked; `message` is the whole object.
    Event { message: Value },
}

/// Why an incoming line was not a message.
#[derive(Debug, Clone, Copy, PartialEq, Eq, Structural)]
pub enum DecodeError {
    /// The line is not JSON.
    Malformed,
    /// The line is JSON, but neither a response nor an event.
    UnrecognizedShape,
}

/// The text of a request: its id, its method and its parameters.
pub open spec fn request_text(id: nat, method: Seq<char>, params: Seq<char>) -> Seq<char> {
    object_text(
        seq![("id"@, decimal(id)), ("method"@, json_quoted(method)), ("params"@, params)],
    )
}

/// The text of a notification: a method and its parameters, and no id.
pub open spec fn notification_text(method: Seq<char>, params: Seq<char>) -> Seq<char> {
    object_text(seq![("method"@, json_quoted(method)), ("params"@, params)])
}

/// What a message is, given what it holds: its `id` member (and that member
/// as an unsigned integer, if it is one), its `result` member, and whether it
/// has `method` and `params` members. A message with an id and a result is a
/// response; one with a method and parameters and no id is an event.
pub open spec fn classification(
    id: Option<Option<u64>>,
    result: Option<Value>,
    has_method: bool,
    has_params: bool,
    message: Value,
) -> Result<Incoming, DecodeError> {
    if id is Some && result is Some {
        match id.unwrap() {
            Some(k) => Ok(Incoming::Response { id: k, result: result.unwrap() }),
            None => Err(DecodeError::UnrecognizedShape),
        }
    } else if id is None && has_method && has_params {
        Ok(Incoming::Event { message })
    } else {
        Err(DecodeError::UnrecognizedShape)
    }
}

/// Writes a request whose parameters are the JSON text `params`, as one line.
pub fn frame_request(id: u64, method: &str, params: &str) -> (r: String)
    requires
        no_newline(params@),
    ensures
        r@ == request_text(id as nat, method@, params@),
        no_newline(r@),
{
    let mut digits = String::new();
    push_decimal(&mut digits, id);
    proof {
        lemma_decimal_no_newline(id as nat);
        assert(digits@ =~= decimal(id as nat));
    }
    let keys = vec!["id", "method", "params"];
    let values = vec![digits, quote(method), String::from_str(params)];
    let r = write_object(&keys, &values);
    assert(crate::text::pairs(keys@, values@) =~= seq![
        ("id"@, decimal(id as nat)),
        ("method"@, json_quoted(method@)),
        ("params"@, params@),
    ]);
    r
}

/// Writes a notification whose parameters are the JSON text `params`, as
/// one line.
pub fn frame_notification(method: &str, params: &str) -> (r: String)
    requires
        no_newline(params@),
    ensures
        r@ == notification_text(method@, params@),
        no_newline(r@),
{
    let keys = vec!["method", "params"];
    let values = vec![quote(method), String::from_str(params)];
    let r = write_object(&keys, &values);
    assert(crate::text::pairs(keys@, values@) =~= seq![
        ("method"@, json_quoted(method@)),
        ("params"@, params@),
    ]);
    r
}

/// Classifies a message by what it holds (see `classification`).
pub fn classify(
    id: Option<Option<u64>>,
    result: Option<Value>,
    has_method: bool,
    has_params: bool,
    message: Value,
) -> (r: Result<Incoming, DecodeError>)
    ensures
        r == classification(id, result, has_method, has_params, message),
{
    match (id, result) {
        (Some(Some(k)), Some(v)) => Ok(Incoming::Response { id: k, result: v }),
        (Some(None), Some(_)) => Err(DecodeError::UnrecognizedShape),
        (None, _) => {
            if has_method && has_params {
                Ok(Incoming::Event { message })
            } else {
                Err(DecodeError::UnrecognizedShape)
            }
        },
        (Some(_), None) => Err(DecodeError::UnrecognizedShape),
    }
}

/// The id of the response that a message of this shape is: it has an `id`
/// that is an unsigned integer, and a `result`.
pub open spec fn shape_response_id(shape: (Option<Option<u64>>, bool, bool, bool)) -> Option<u64> {
    match shape.0 {
        Some(Some(k)) => if shape.1 { Some(k) } else { None },
        _ => None,
    }
}

/// Whether a message of this shape is an event: it has no `id`, and has
/// `method` and `params`.
pub open spec fn shape_is_event(shape: (Option<Option<u64>>, bool, bool, bool)) -> bool {
    shape.0 is None && shape.2 && shape.3
}

/// Decodes one line read from the backend: a response where it has an id and
/// a result, an event where it has a method and parameters and no id.
pub fn decode_line(line: &str) -> (r: Result<Incoming, DecodeError>)
    ensures
        r == Err::<Incoming, DecodeError>(DecodeError::Malformed) <==> !is_json_text(line@),
        is_json_text(line@) ==> match r {
            Ok(Incoming::Response { id, .. }) => shape_response_id(line_shape(line@)) == Some(id),
            Ok(Incoming::Event { .. }) => shape_is_event(line_shape(line@)),
            Err(e) => {
                &&& e == DecodeError::UnrecognizedShape
                &&& shape_response_id(line_shape(line@)) is None
                &&& !shape_is_event(line_shape(line@))
            },
        },
{
    match parse(line) {
        Err(_) => Err(DecodeError::Malformed),
        Ok(e) => classify(e.id, e.result, e.has_method, e.has_params, e.message),
    }
}

} // verus!
