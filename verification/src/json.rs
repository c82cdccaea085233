//! Decoding a raw response body into the generic envelope.
//!
//! The body of every response is one JSON object `{error, message, code,
//! data}`.  Parsing is done by serde_json behind the trusted wrapper below,
//! whose results are named by the spec functions `env_wf`, `env_error_of`,
//! `env_message_of`, `env_code_of` and `env_has_data_of`: parsing depends on
//! the body text alone, so the contracts here can say exactly which envelope
//! a given body yields, and that a body outside the envelope shape fails.
//! Every decision taken on the parsed fields is verified.  The payload under
//! `data` is handed on as an opaque JSON value for the caller to interpret.

use vstd::prelude::*;
use vstd::string::StringExecFns;

use crate::envelope::{check_response, code_or_zero, empty_data_text};
use crate::error::Error;
use crate::models::Response;

verus! {

#[verifier::external_type_specification]
#[verifier::external_body]
pub struct ExValue(serde_json::Value);

/// Whether the body text parses as a JSON object of the envelope shape:
/// an `error` field holding an unsigned number, a `message` field holding
/// a string, and a `code` field that is absent, null, or an unsigned
/// number.
pub uninterp spec fn env_wf(s: Seq<char>) -> bool;

/// The number under `error`, for a well-formed body.
pub uninterp spec fn env_error_of(s: Seq<char>) -> u64;

/// The string under `message`, for a well-formed body.
pub uninterp spec fn env_message_of(s: Seq<char>) -> Seq<char>;

/// The number under `code`, for a well-formed body; `None` when the field
/// is absent or null.
pub uninterp spec fn env_code_of(s: Seq<char>) -> Option<u64>;

/// Whether a well-formed body carries a payload: a `data` field that is
/// present and not null.
pub uninterp spec fn env_has_data_of(s: Seq<char>) -> bool;

/// The four envelope fields as the trusted parse hands them over, before
/// any of the verified range checks.
struct RawEnvelope {
    error: u64,
    message: String,
    code: Option<u64>,
    data: Option<serde_json::Value>,
}

/// Relies on serde_json::from_str and serde_json::Value's accessors
/// (`get`, `as_u64`, `as_str`, `is_null`, `clone`): parses the body and
/// reads the four envelope fields, telling variants apart and moving
/// values only.  The outcome is a pure function of the body text, which
/// the names above stand for.
#[verifier::external_body]
fn read_envelope(body: &str) -> (r: Option<RawEnvelope>)
    ensures
        r is Some <==> env_wf(body@),
        r matches Some(e) ==> (e.error == env_error_of(body@) && e.message@ == env_message_of(
            body@,
        ) && e.code == env_code_of(body@) && (e.data is Some <==> env_has_data_of(body@))),
{
    let v: serde_json::Value = serde_json::from_str(body).ok()?;
    Some(RawEnvelope {
        error: v.get("error")?.as_u64()?,
        message: v.get("message")?.as_str()?.to_owned(),
        code: match v.get("code") {
            None => None,
            Some(c) if c.is_null() => None,
            Some(c) => Some(c.as_u64()?),
        },
        data: match v.get("data") {
            None => None,
            Some(d) if d.is_null() => None,
            Some(d) => Some(d.clone()),
        },
    })
}

/// Whether a parsed `code` fits the envelope's sixteen-bit code type.
pub open spec fn code_fits(c: Option<u64>) -> bool {
    match c {
        Option::Some(n) => n <= 65535,
        Option::None => true,
    }
}

/// Whether a body decodes into an envelope: it is well-formed, its error
/// flag is zero or one, and its code, when present, fits sixteen bits.
pub open spec fn envelope_ok(s: Seq<char>) -> bool {
    env_wf(s) && env_error_of(s) <= 1 && code_fits(env_code_of(s))
}

/// The parsed `code` narrowed to the envelope's code type; meaningful when
/// `code_fits` holds.
pub open spec fn env_code_u16(s: Seq<char>) -> Option<u16> {
    match env_code_of(s) {
        Option::Some(n) => Option::Some(n as u16),
        Option::None => Option::None,
    }
}

/// Decodes a raw response body into the generic envelope.  A body that
/// parses to the envelope shape, with an error flag of zero or one and a
/// code fitting sixteen bits, yields exactly the envelope the names
/// describe; any other body is a decode failure.
pub fn decode_envelope(body: &str) -> (r: Result<Response<serde_json::Value>, Error>)
    ensures
        envelope_ok(body@) ==> (r matches Ok(env) && env.error as u64 == env_error_of(body@)
            && env.message@ == env_message_of(body@) && env.code == env_code_u16(body@) && (
        env.data is Some <==> env_has_data_of(body@))),
        !envelope_ok(body@) ==> (r matches Err(e) && e is SerdeError),
{
    let raw = match read_envelope(body) {
        Some(raw) => raw,
        None => {
            return Err(Error::SerdeError(String::from_str(
                "the response body is not a well-formed envelope",
            )));
        },
    };
    if raw.error > 1 {
        return Err(Error::SerdeError(String::from_str("field `error` is neither 0 nor 1")));
    }
    let code: Option<u16> = match raw.code {
        Some(n) => {
            if n > 65535 {
                return Err(Error::SerdeError(String::from_str(
                    "field `code` does not fit sixteen bits",
                )));
            }
            Some(n as u16)
        },
        None => None,
    };
    Ok(Response { error: raw.error as u8, message: raw.message, code, data: raw.data })
}

/// Runs a raw response body through the whole receiving side of the
/// pipeline: decode the envelope, then classify it.  A body outside the
/// envelope shape is a decode failure; a reported failure becomes a
/// `ProxerError` with the body's code and message; a success yields the
/// payload as an opaque JSON value, and a success without one is a local
/// failure.  No outcome is a panic.
pub fn process_response(body: &str) -> (r: Result<serde_json::Value, Error>)
    ensures
        !envelope_ok(body@) ==> (r matches Err(e) && e is SerdeError),
        envelope_ok(body@) && env_error_of(body@) == 1 ==> (r matches Err(e) && e matches
            Error::ProxerError(c, m) && c == code_or_zero(env_code_u16(body@)) && m@
            == env_message_of(body@)),
        envelope_ok(body@) && env_error_of(body@) != 1 && env_has_data_of(body@) ==> r is Ok,
        envelope_ok(body@) && env_error_of(body@) != 1 && !env_has_data_of(body@) ==> (r matches
            Err(e) && e matches Error::Other(m) && m@ == empty_data_text()),
{
    match decode_envelope(body) {
        Ok(env) => check_response(env),
        Err(e) => Err(e),
    }
}

} // verus!
