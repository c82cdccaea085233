//! Request assembly: the endpoint URL and the encoded form body.
//!
//! Every API operation posts to `<base>/<version>/<class>/<function>` with
//! a form-encoded body.  The base URL and the API version are fixed for
//! the whole library.

use vstd::prelude::*;
use vstd::string::StringExecFns;

use crate::params::{encode_params, param_build, params_view, Param};

verus! {

/// The URL of an API endpoint: the fixed base and version followed by the
/// resource class and the resource function.
pub open spec fn api_url(api_class: Seq<char>, api_function: Seq<char>) -> Seq<char> {
    "https://proxer.me/api/v1/"@ + api_class + "/"@ + api_function
}

/// One ready-to-send request: the endpoint URL and the form body.
pub struct Request {
    /// Where the request is posted.
    pub url: String,
    /// The `application/x-www-form-urlencoded` body.
    pub body: String,
}

/// Builds the URL for a resource class and function.
pub fn build_url(api_class: &str, api_function: &str) -> (r: String)
    ensures
        r@ == api_url(api_class@, api_function@),
{
    let mut s = String::from_str("https://proxer.me/api/v1/");
    s.append(api_class);
    s.append("/");
    s.append(api_function);
    proof {
        assert(s@ =~= api_url(api_class@, api_function@));
    }
    s
}

/// Assembles a request from a resource class, a resource function, and a
/// parameter list.
pub fn make_request(api_class: &str, api_function: &str, params: &Vec<Param>) -> (r: Request)
    ensures
        r.url@ == api_url(api_class@, api_function@),
        r.body@ == encode_params(params_view(params@)),
{
    Request { url: build_url(api_class, api_function), body: param_build(params) }
}

} // verus!
