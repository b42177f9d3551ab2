//! Classification of inbound lines.  A line is parsed as JSON; a value that
//! carries an integer field named by the caller (the protocol uses
//! `request_id`) is a response to the pending command with that identifier,
//! any other valid value is an asynchronous event, and a line that is not
//! valid JSON is a protocol violation.

use vstd::prelude::*;

verus! {

#[verifier::external_type_specification]
#[verifier::external_body]
pub struct ExJsonValue(serde_json::Value);

#[verifier::external_type_specification]
#[verifier::external_body]
pub struct ExJsonError(serde_json::Error);

/// Whether `s` is a line of valid JSON, as serde_json's parser decides it.
pub uninterp spec fn json_wf(s: Seq<char>) -> bool;

/// The unsigned integer held by the field named `key` of the JSON value
/// written in `s`, if `s` is a valid JSON object with such a field.
pub uninterp spec fn json_u64_field(s: Seq<char>, key: Seq<char>) -> Option<u64>;

/// One classified inbound line.
pub enum Inbound {
    /// The line is not valid JSON; the error is serde_json's.
    Malformed(serde_json::Error),
    /// Valid JSON without an integer `key` field: an asynchronous event.
    Event(serde_json::Value),
    /// Valid JSON echoing a request identifier: a response.
    Response(u64, serde_json::Value),
}

/// Relies on serde_json::from_str (a line is refused exactly when it is not
/// valid JSON), serde_json::Value::get (the field named `key` of an object,
/// absent on any other value) and serde_json::Value::as_u64 (the field as an
/// unsigned integer, if it is one): the outcome is a function of the line
/// text and the key alone.
#[verifier::external_body]
pub(crate) fn classify_inbound(line: &str, key: &str) -> (r: Inbound)
    ensures
        match r {
            Inbound::Malformed(_) => !json_wf(line@),
            Inbound::Event(_) => json_wf(line@) && json_u64_field(line@, key@) is None,
            Inbound::Response(id, _) => json_wf(line@) && json_u64_field(line@, key@) == Some(id),
        },
{
    match serde_json::from_str::<serde_json::Value>(line) {
        Err(e) => Inbound::Malformed(e),
        Ok(v) => {
            let id = match v.get(key) {
                Some(field) => field.as_u64(),
                None => None,
            };
            match id {
                Some(i) => Inbound::Response(i, v),
                None => Inbound::Event(v),
            }
        },
    }
}

} // verus!
