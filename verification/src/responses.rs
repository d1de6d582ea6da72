//! The answers handlers give: a status, an optional htmx redirect header
//! and a text body.

use vstd::prelude::*;
use vstd::string::StringExecFns;

verus! {

/// An HTTP answer.
pub struct Reply {
    pub status: u16,
    /// Where htmx is told to go (the `HX-Redirect` header), if anywhere.
    pub hx_redirect: Option<String>,
    pub body: String,
}

/// Whether `r` has the given status, redirect and body.
pub open spec fn is_reply(r: Reply, status: u16, hx_redirect: Option<Seq<char>>, body: Seq<char>) -> bool {
    &&& r.status == status
    &&& match (r.hx_redirect, hx_redirect) {
        (Some(a), Some(b)) => a@ == b,
        (None, None) => true,
        _ => false,
    }
    &&& r.body@ == body
}

impl Reply {
    /// A text answer.
    pub fn text(status: u16, body: &str) -> (r: Reply)
        ensures
            is_reply(r, status, None, body@),
    {
        Reply { status, hx_redirect: None, body: String::from_str(body) }
    }

    /// A text answer with text computed at run time.
    pub fn owned(status: u16, body: String) -> (r: Reply)
        ensures
            is_reply(r, status, None, body@),
    {
        Reply { status, hx_redirect: None, body }
    }

    /// A 200 answer telling htmx to go to `location`, with an empty body.
    pub fn hx_redirect(location: &str) -> (r: Reply)
        ensures
            is_reply(r, 200, Some(location@), Seq::empty()),
    {
        Reply { status: 200, hx_redirect: Some(String::from_str(location)), body: String::new() }
    }
}

/// 409: the address belongs to another account.
pub fn email_in_use() -> (r: Reply)
    ensures
        is_reply(r, 409, None, "Email already in use."@),
{
    Reply::text(409, "Email already in use.")
}

/// 404: no such user.
pub fn user_not_exists() -> (r: Reply)
    ensures
        is_reply(r, 404, None, "User does not exist."@),
{
    Reply::text(404, "User does not exist.")
}

/// 401: the request needs a signed-in user.
pub fn not_authenticated() -> (r: Reply)
    ensures
        is_reply(r, 401, None, "You must authenticate."@),
{
    Reply::text(401, "You must authenticate.")
}

/// 500: something failed on the server side (the failure itself is logged
/// by the caller).
pub fn internal_error() -> (r: Reply)
    ensures
        is_reply(r, 500, None, "Internal server error; please contact: support@uledger.me"@),
{
    Reply::text(500, "Internal server error; please contact: support@uledger.me")
}

/// 500 as the API handlers answer it: the failure is logged by the caller
/// and the client only learns that something failed.
pub fn server_error() -> (r: Reply)
    ensures
        is_reply(r, 500, None, "internal server error"@),
{
    Reply::text(500, "internal server error")
}

/// 200 with a body computed at run time (a JSON document, a name).
pub fn ok_body(body: String) -> (r: Reply)
    ensures
        is_reply(r, 200, None, body@),
{
    Reply::owned(200, body)
}

} // verus!
