//! The site around the API: who may see which page, the pages' contents,
//! and how the server names itself.

use vstd::prelude::*;

verus! {

/// How the server names itself in the `Server` header and to Postmark: the
/// program's name and the crate's version.
pub fn user_agent() -> (r: &'static str)
    ensures
        r@ == "uledger-srv/0.1.0"@,
{
    "uledger-srv/0.1.0"
}

/// Where the site's root sends a signed-in user.
pub const START_PAGE: &'static str = "/accounts";

/// Where a visitor without a session is sent.
pub const LOGIN_PAGE: &'static str = "/login";

/// What happens to a request for a page that needs a signed-in user.
#[derive(Debug)]
pub enum PageAccess {
    /// The page is served.
    Serve,
    /// The visitor is sent elsewhere with a temporary redirect.
    TemporaryRedirect(&'static str),
}

/// Pages behind sign-in are served to a request with a user session and
/// send everyone else to the sign-in page.
pub fn check_user_authenticated(has_user_session: bool) -> (r: PageAccess)
    ensures
        has_user_session ==> r is Serve,
        !has_user_session ==> (r matches PageAccess::TemporaryRedirect(to) && to@ == LOGIN_PAGE@),
{
    if has_user_session {
        PageAccess::Serve
    } else {
        PageAccess::TemporaryRedirect(LOGIN_PAGE)
    }
}

/// The start page, greeting the user by name.
pub struct IndexTemplate {
    pub display_name: String,
}

/// The sign-up page.
pub struct RegisterTemplate {}

/// The sign-in page.
pub struct LoginTemplate {}

} // verus!
