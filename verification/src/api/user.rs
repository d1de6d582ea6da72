//! How the user API answers: sign-up, sign-in, sign-out, e-mail
//! verification and the display name.

use vstd::prelude::*;
use vstd::string::{StringExecFns, StringSliceAdditionalSpecFns};

use crate::auth::{LoginError, LogoutError, RegisterError};
use crate::db::DbFailure;
use crate::htmx::{get_header_text, header_text, headers_view, Header};
use crate::util::text::opt_text;
use crate::responses::{is_reply, ok_body, server_error, Reply};
use crate::util::hex::{hex_decode_spec, HexError};
use crate::util::verification_token::{VerificationToken, TOKEN_SIZE};
use crate::verification::{ConfirmError, CreateError};

verus! {

/// The answer to a sign-up: 200 once registered, 400 for an address that is
/// too long or not one and for a display name too long, 409 for an address
/// in use, 500 otherwise.
pub fn register_reply(outcome: &Result<(), RegisterError>) -> (r: Reply)
    ensures
        match outcome {
            Ok(_) => is_reply(r, 200, None, "Your account has been registered."@),
            Err(RegisterError::EmailAddressLength) => is_reply(r, 400, None, "Email address is too long."@),
            Err(RegisterError::EmailAddressFormat) => is_reply(r, 400, None, "Email address is invalid."@),
            Err(RegisterError::DisplayNameLength) => is_reply(r, 400, None, "Display name is too long."@),
            Err(RegisterError::DuplicateEmail) => is_reply(r, 409, None, "Email address is already in use."@),
            Err(_) => is_reply(r, 500, None, "internal server error"@),
        },
{
    match outcome {
        Ok(()) => Reply::text(200, "Your account has been registered."),
        Err(RegisterError::EmailAddressLength) => Reply::text(400, "Email address is too long."),
        Err(RegisterError::EmailAddressFormat) => Reply::text(400, "Email address is invalid."),
        Err(RegisterError::DisplayNameLength) => Reply::text(400, "Display name is too long."),
        Err(RegisterError::DuplicateEmail) => Reply::text(409, "Email address is already in use."),
        Err(_) => server_error(),
    }
}

/// The answer to a sign-in. A session that already holds a user gets 409;
/// a success sends htmx to the start page, or says so to other clients;
/// wrong credentials get 401 and every other failure 500.
pub fn login_reply(outcome: &Result<u128, LoginError>, is_htmx: bool) -> (r: Reply)
    ensures
        match outcome {
            Ok(_) => if is_htmx {
                is_reply(r, 200, Some("/"@), Seq::empty())
            } else {
                is_reply(r, 200, None, "You have been logged in."@)
            },
            Err(LoginError::AlreadyLoggedIn) => is_reply(r, 409, None, "You are already logged in."@),
            Err(LoginError::InvalidLogin) => is_reply(r, 401, None, "Wrong username or password."@),
            Err(_) => is_reply(r, 500, None, "internal server error"@),
        },
{
    match outcome {
        Ok(_) => if is_htmx {
            Reply::hx_redirect("/")
        } else {
            Reply::text(200, "You have been logged in.")
        },
        Err(LoginError::AlreadyLoggedIn) => Reply::text(409, "You are already logged in."),
        Err(LoginError::InvalidLogin) => Reply::text(401, "Wrong username or password."),
        Err(_) => server_error(),
    }
}

/// The answer to a sign-up that stored the user, in the form and plain
/// endpoints: htmx is sent to the sign-in page, other clients get an empty 200.
pub fn register_success_reply(is_htmx: bool) -> (r: Reply)
    ensures
        is_htmx ==> is_reply(r, 200, Some("/login"@), Seq::empty()),
        !is_htmx ==> is_reply(r, 200, None, Seq::empty()),
{
    if is_htmx {
        Reply::hx_redirect("/login")
    } else {
        Reply::owned(200, String::new())
    }
}

/// The answer to a sign-in that succeeded, in the form and JSON endpoints:
/// htmx is sent to the start page, other clients get an empty 200.
pub fn login_success_reply(is_htmx: bool) -> (r: Reply)
    ensures
        is_htmx ==> is_reply(r, 200, Some("/"@), Seq::empty()),
        !is_htmx ==> is_reply(r, 200, None, Seq::empty()),
{
    if is_htmx {
        Reply::hx_redirect("/")
    } else {
        Reply::owned(200, String::new())
    }
}

/// What a successful form sign-in stores in the session.
pub struct LoginSession {
    pub user_id: u128,
    /// The `User-Agent` header, when present and readable as text.
    pub user_agent: Option<String>,
    pub display_name: Option<String>,
}

/// The session entries for `user_id` signing in with `headers`.
pub fn login_session(user_id: u128, headers: &[Header], display_name: Option<String>) -> (r: LoginSession)
    ensures
        r.user_id == user_id,
        opt_text(r.user_agent) == header_text(headers_view(headers@), "user-agent"@),
        r.display_name == display_name,
{
    LoginSession { user_id, user_agent: get_header_text(headers, "user-agent"), display_name }
}

/// The answer of the plain sign-out endpoint: an empty 200 once the
/// session is flushed, 500 when flushing failed.
pub fn logout_endpoint_reply(flushed: &Result<(), LogoutError>) -> (r: Reply)
    ensures
        match flushed {
            Ok(_) => is_reply(r, 200, None, Seq::empty()),
            Err(_) => is_reply(r, 500, None, "internal server error"@),
        },
{
    match flushed {
        Ok(()) => Reply::owned(200, String::new()),
        Err(e) => e.reply(),
    }
}

/// First step of a sign-out: a session without a user is answered with
/// 401 at once; otherwise the session is flushed.
pub fn begin_logout(session_is_empty: bool) -> (r: Option<Reply>)
    ensures
        r is Some <==> session_is_empty,
        r matches Some(reply) ==> is_reply(reply, 401, None, "You are not logged in."@),
{
    if session_is_empty {
        Some(Reply::text(401, "You are not logged in."))
    } else {
        None
    }
}

/// The answer once the session was flushed: htmx is sent to the sign-in
/// page, other clients are told; a failed flush is 500.
pub fn logout_reply(flushed: &Result<(), LogoutError>, is_htmx: bool) -> (r: Reply)
    ensures
        match flushed {
            Ok(_) => if is_htmx {
                is_reply(r, 200, Some("/login"@), Seq::empty())
            } else {
                is_reply(r, 200, None, "You have been logged out."@)
            },
            Err(_) => is_reply(r, 500, None, "internal server error"@),
        },
{
    match flushed {
        Ok(()) => if is_htmx {
            Reply::hx_redirect("/login")
        } else {
            Reply::text(200, "You have been logged out.")
        },
        Err(_) => server_error(),
    }
}

/// Reads the verification code a user typed; one that is not the hex text
/// of a token is answered with 400.
pub fn parse_verification_code(code: &str) -> (r: Result<VerificationToken, Reply>)
    ensures
        match r {
            Ok(t) => hex_decode_spec(code.spec_bytes(), TOKEN_SIZE as nat) == Ok::<Seq<u8>, HexError>(t@),
            Err(reply) => hex_decode_spec(code.spec_bytes(), TOKEN_SIZE as nat) is Err
                && is_reply(reply, 400, None, "Verification code is malformed."@),
        },
{
    match VerificationToken::from_str(code) {
        Ok(t) => Ok(t),
        Err(_) => Err(Reply::text(400, "Verification code is malformed.")),
    }
}

/// The answer to a confirmation: 200 once the address is verified, 404 when
/// the code does not match, 500 otherwise.
pub fn verify_reply(outcome: &Result<(), ConfirmError>) -> (r: Reply)
    ensures
        match outcome {
            Ok(_) => is_reply(r, 200, None, "Your email has been verified."@),
            Err(ConfirmError::NoVerificationMatch) => is_reply(r, 404, None, "Verification code does not match."@),
            Err(_) => is_reply(r, 500, None, "internal server error"@),
        },
{
    match outcome {
        Ok(()) => Reply::text(200, "Your email has been verified."),
        Err(ConfirmError::NoVerificationMatch) => Reply::text(404, "Verification code does not match."),
        Err(_) => server_error(),
    }
}

/// The answer to a request for a verification mail: 200 once sent, 409 when
/// another user is verifying the address, 500 otherwise.
pub fn send_verification_reply(outcome: &Result<(), CreateError>) -> (r: Reply)
    ensures
        match outcome {
            Ok(_) => is_reply(r, 200, None, "Verification sent to email."@),
            Err(CreateError::EmailInUse) => is_reply(r, 409, None, "Email already being used."@),
            Err(_) => is_reply(r, 500, None, "internal server error"@),
        },
{
    match outcome {
        Ok(()) => Reply::text(200, "Verification sent to email."),
        Err(CreateError::EmailInUse) => Reply::text(409, "Email already being used."),
        Err(_) => server_error(),
    }
}

/// The answer to a request for the user's display name: the name, or 500.
pub fn display_name_reply(outcome: Result<String, DbFailure>) -> (r: Reply)
    ensures
        match outcome {
            Ok(name) => is_reply(r, 200, None, name@),
            Err(_) => is_reply(r, 500, None, "internal server error"@),
        },
{
    match outcome {
        Ok(name) => ok_body(name),
        Err(_) => server_error(),
    }
}

} // verus!
