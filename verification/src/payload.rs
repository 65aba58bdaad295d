//! Payload guard: bound and decode an untrusted request body into a typed
//! command request.
//!
//! The byte-length ceiling is enforced strictly before any buffer sized to
//! the claimed length may be allocated: callers check the declared length
//! with [`check_length`] before reading, and [`decode`] re-checks it before
//! looking at a single body byte.

use vstd::prelude::*;

verus! {

/// Ceiling on the declared body length of a control request, in bytes.
pub const MAX_PAYLOAD_BYTES: usize = 128;

/// A validated control command, built once per HTTP exchange.
pub struct CommandRequest {
    pub station_name: String,
    pub is_web: bool,
}

/// Why a request body was rejected.
#[derive(Debug)]
pub enum GuardError {
    /// The declared length exceeds the ceiling; nothing was read.
    TooLarge,
    /// Fewer bytes than declared were available.
    Truncated,
    /// The bytes do not decode to a command; the original bytes are kept for
    /// diagnostics, never a partial parse.
    Malformed { body: Vec<u8> },
}

/// Mathematical model of the guard's verdict on one request body.
pub enum GuardModel {
    TooLarge,
    Truncated,
    Malformed { body: Seq<u8> },
    Accepted { station_name: Seq<char>, is_web: bool },
}

/// The string member stored under `key` in the JSON document `body`, if
/// `body` parses and holds one.
pub uninterp spec fn json_string_member_of(body: Seq<u8>, key: Seq<char>) -> Option<Seq<char>>;

/// The boolean member stored under `key` in the JSON document `body`, if
/// `body` parses and holds one.
pub uninterp spec fn json_bool_member_of(body: Seq<u8>, key: Seq<char>) -> Option<bool>;

/// Relies on serde_json::from_slice::<Value> and Value::get / Value::as_str:
/// parsing a byte slice and reading a member of the parsed document are
/// functions of the bytes and the key alone. The result is the string member
/// under `key`, or None when the bytes do not parse, the key is absent, or
/// the member is not a string.
#[verifier::external_body]
fn json_string_member(body: &[u8], key: &str) -> (r: Option<String>)
    ensures
        r.deep_view() == json_string_member_of(body@, key@),
{
    match serde_json::from_slice::<serde_json::Value>(body) {
        Ok(doc) => match doc.get(key) {
            Some(member) => member.as_str().map(|s| s.to_owned()),
            None => None,
        },
        Err(_) => None,
    }
}

/// Relies on serde_json::from_slice::<Value> and Value::get / Value::as_bool:
/// parsing a byte slice and reading a member of the parsed document are
/// functions of the bytes and the key alone. The result is the boolean member
/// under `key`, or None when the bytes do not parse, the key is absent, or
/// the member is not a boolean.
#[verifier::external_body]
fn json_bool_member(body: &[u8], key: &str) -> (r: Option<bool>)
    ensures
        r == json_bool_member_of(body@, key@),
{
    match serde_json::from_slice::<serde_json::Value>(body) {
        Ok(doc) => match doc.get(key) {
            Some(member) => member.as_bool(),
            None => None,
        },
        Err(_) => None,
    }
}

/// The guard's verdict on a body of `body` bytes declared as `declared_len`:
/// oversized bodies are turned away unread, short reads are truncation, and
/// an accepted body must hold a string `"station"` and a boolean
/// `"is_webradio"` member.
pub open spec fn guard_outcome(declared_len: int, body: Seq<u8>) -> GuardModel {
    if declared_len > MAX_PAYLOAD_BYTES {
        GuardModel::TooLarge
    } else if body.len() != declared_len {
        GuardModel::Truncated
    } else {
        match (json_string_member_of(body, "station"@), json_bool_member_of(
            body,
            "is_webradio"@,
        )) {
            (Some(name), Some(web)) => GuardModel::Accepted { station_name: name, is_web: web },
            _ => GuardModel::Malformed { body },
        }
    }
}

/// The verdict a concrete decode result stands for.
pub open spec fn decision_of(r: Result<CommandRequest, GuardError>) -> GuardModel {
    match r {
        Ok(req) => GuardModel::Accepted { station_name: req.station_name@, is_web: req.is_web },
        Err(GuardError::TooLarge) => GuardModel::TooLarge,
        Err(GuardError::Truncated) => GuardModel::Truncated,
        Err(GuardError::Malformed { body }) => GuardModel::Malformed { body: body@ },
    }
}

/// Reject an oversized declared length before any byte is read or any buffer
/// sized to the claim is allocated.
pub fn check_length(declared_len: usize) -> (r: Result<(), GuardError>)
    ensures
        match r {
            Ok(()) => declared_len <= MAX_PAYLOAD_BYTES,
            Err(e) => declared_len > MAX_PAYLOAD_BYTES && e is TooLarge,
        },
{
    if declared_len > MAX_PAYLOAD_BYTES {
        Err(GuardError::TooLarge)
    } else {
        Ok(())
    }
}

/// One-shot decode of the body read for one HTTP exchange. `declared_len` is
/// the length the client claimed; `body` holds the bytes actually read.
pub fn decode(declared_len: usize, body: &Vec<u8>) -> (r: Result<CommandRequest, GuardError>)
    ensures
        decision_of(r) == guard_outcome(declared_len as int, body@),
{
    if declared_len > MAX_PAYLOAD_BYTES {
        return Err(GuardError::TooLarge);
    }
    if body.len() != declared_len {
        return Err(GuardError::Truncated);
    }
    let name = json_string_member(body.as_slice(), "station");
    let web = json_bool_member(body.as_slice(), "is_webradio");
    match (name, web) {
        (Some(station_name), Some(is_web)) => Ok(CommandRequest { station_name, is_web }),
        _ => {
            let kept = body.clone();
            proof {
                assert(kept@ =~= body@);
            }
            Err(GuardError::Malformed { body: kept })
        },
    }
}

/// Law: every request body whose declared length exceeds the ceiling is
/// turned away as TooLarge, whatever bytes it holds.
pub proof fn lemma_oversized_rejected(declared_len: int, body: Seq<u8>)
    requires
        declared_len > MAX_PAYLOAD_BYTES,
    ensures
        guard_outcome(declared_len, body) == GuardModel::TooLarge,
{
}

/// Law: the oversize verdict never depends on the body bytes, so no byte of
/// an oversized body need be read, and no buffer of the claimed size need be
/// allocated, before rejecting it.
pub proof fn lemma_oversized_verdict_reads_nothing(declared_len: int, b1: Seq<u8>, b2: Seq<u8>)
    requires
        declared_len > MAX_PAYLOAD_BYTES,
    ensures
        guard_outcome(declared_len, b1) == guard_outcome(declared_len, b2),
{
}

} // verus!
