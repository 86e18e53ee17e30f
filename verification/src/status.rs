//! Classification of the HTTP status observed on a lookup response, with
//! redirects disabled at the transport so a redirect is seen directly.

use vstd::prelude::*;

verus! {

/// How the workflow reacts to a response status.
#[derive(Clone, Copy, Debug, PartialEq, Eq, Structural)]
pub enum StatusClass {
    /// Status 500: the server failed to respond; terminate.
    ServerFailed,
    /// Any other server-error status (501 through 599): report the numeric
    /// status and terminate.
    ServerError,
    /// Status 302: the word was not found verbatim; fall back to the
    /// spellcheck flow.
    NotFound,
    /// Every other status, 200 included: treat the body as the definition
    /// page.
    Found,
}

/// The classification rule. The server-error checks come before the redirect
/// check.
pub open spec fn classify_spec(code: u16) -> StatusClass {
    if code == 500 {
        StatusClass::ServerFailed
    } else if 501 <= code && code <= 599 {
        StatusClass::ServerError
    } else if code == 302 {
        StatusClass::NotFound
    } else {
        StatusClass::Found
    }
}

/// Classifies a response status code. Exactly the 500 status maps to
/// `ServerFailed`, exactly the statuses 501 through 599 map to `ServerError`,
/// exactly 302 maps to `NotFound`, and everything else is `Found`.
pub fn classify_status(code: u16) -> (c: StatusClass)
    ensures
        c == classify_spec(code),
        c is ServerFailed <==> code == 500,
        c is ServerError <==> 501 <= code && code <= 599,
        c is NotFound <==> code == 302,
        c is Found <==> !(500 <= code && code <= 599) && code != 302,
{
    if code == 500 {
        StatusClass::ServerFailed
    } else if 501 <= code && code <= 599 {
        StatusClass::ServerError
    } else if code == 302 {
        StatusClass::NotFound
    } else {
        StatusClass::Found
    }
}

} // verus!
