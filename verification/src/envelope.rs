//! Classification of response envelopes.
//!
//! Once a response has been decoded into its envelope, these functions
//! decide the outcome of the call: a reported failure becomes a
//! `ProxerError` carrying the server's code and message verbatim, a
//! success with a payload yields the payload unchanged, and a success
//! without the promised payload is a local failure, never a silent
//! default.

use vstd::prelude::*;
use vstd::string::StringExecFns;

use crate::error::Error;
use crate::models::{EmptyResponse, Response};

verus! {

/// The numeric code of an envelope, `0` when the server sent none.
pub open spec fn code_or_zero(code: Option<u16>) -> u16 {
    match code {
        Option::Some(c) => c,
        Option::None => 0,
    }
}

/// The text reported when a successful envelope carries no payload.
pub open spec fn empty_data_text() -> Seq<char> {
    "Found Empty data after error check."@
}

/// Classifies the error flag of an envelope: a set flag becomes a
/// `ProxerError` carrying exactly the given code and message, a clear
/// flag passes.
pub fn check_error(error: u8, code: u16, message: String) -> (r: Result<(), Error>)
    ensures
        error == 1 ==> (r matches Err(e) && e == Error::ProxerError(code, message)),
        error != 1 ==> r is Ok,
{
    if error == 1 {
        Err(Error::ProxerError(code, message))
    } else {
        Ok(())
    }
}

/// Requires the payload of a successful envelope: a present payload is
/// returned unchanged, an absent one is a local failure.
pub fn check_data<T>(data: Option<T>) -> (r: Result<T, Error>)
    ensures
        data matches Some(v) ==> r matches Ok(rv) && rv == v,
        data is None ==> (r matches Err(e) && e matches Error::Other(m) && m@
            == empty_data_text()),
{
    match data {
        Some(v) => Ok(v),
        None => Err(Error::Other(String::from_str("Found Empty data after error check."))),
    }
}

/// Classifies a payload-bearing envelope.  A reported failure becomes a
/// `ProxerError` with the envelope's code (zero when absent) and message;
/// a success yields the payload unchanged; a success without a payload is
/// a local failure.
pub fn check_response<T>(data: Response<T>) -> (r: Result<T, Error>)
    ensures
        data.error == 1 ==> (r matches Err(e) && e == Error::ProxerError(
            code_or_zero(data.code),
            data.message,
        )),
        data.error != 1 && data.data is Some ==> r is Ok && r->Ok_0 == data.data->Some_0,
        data.error != 1 && data.data is None ==> (r matches Err(e) && e matches Error::Other(m)
            && m@ == empty_data_text()),
{
    let code: u16 = match data.code {
        Some(c) => c,
        None => 0,
    };
    match check_error(data.error, code, data.message) {
        Err(e) => Err(e),
        Ok(()) => check_data(data.data),
    }
}

/// Classifies a payload-less envelope: a reported failure becomes a
/// `ProxerError` with the envelope's code (zero when absent) and message,
/// a success passes.
pub fn check_empty_response(data: EmptyResponse) -> (r: Result<(), Error>)
    ensures
        data.error == 1 ==> (r matches Err(e) && e == Error::ProxerError(
            code_or_zero(data.code),
            data.message,
        )),
        data.error != 1 ==> r is Ok,
{
    let code: u16 = match data.code {
        Some(c) => c,
        None => 0,
    };
    check_error(data.error, code, data.message)
}

} // verus!
