//! Account creation and login: the request shapes the client sends, and the
//! reading of the server's reply into either an authentication token or a
//! distinct failure. The JSON transport around these calls is glue and
//! surrounds this module.

use crate::urls::{join_url, url_join};
use vstd::prelude::*;

verus! {

/// Endpoint for creating an account.
pub const CREATE_ACCOUNT_ENDPOINT: &'static str = "api/server/create";

/// Endpoint for logging into an account.
pub const LOGIN_ENDPOINT: &'static str = "api/server/login";

/// Request body for creating a new user.
#[derive(Debug)]
pub struct CreateUserRequest {
    /// The email for the user to create.
    pub email: String,
    /// The username for the user to create.
    pub username: String,
    /// The password for the user to create.
    pub password: String,
}

/// Request body for logging a user in.
#[derive(Debug)]
pub struct LoginUserRequest {
    /// The email for the user to login.
    pub email: String,
    /// The password for the user to login.
    pub password: String,
}

/// Reply body of a successful authentication call.
#[derive(Debug)]
pub struct TokenResponse {
    /// The authorization token.
    pub token: String,
}

/// Why an authentication call failed.
#[derive(Debug)]
pub enum ServerAuthError {
    /// The request could not be sent or produced no response.
    RequestFailed,
    /// The server answered with an error status; carries the reply text.
    ServerError(String),
    /// The reply read as no token: a malformed server response.
    Malformed,
}

/// The URL of the account-creation endpoint under a base URL, or `None`
/// where the join is rejected.
pub fn account_create_url(base: &str) -> (r: Option<String>)
    ensures
        r is Some <==> url_join(base@, CREATE_ACCOUNT_ENDPOINT@) is Some,
        r matches Some(u) ==> u@ == url_join(base@, CREATE_ACCOUNT_ENDPOINT@)->Some_0,
{
    join_url(base, CREATE_ACCOUNT_ENDPOINT)
}

/// The URL of the login endpoint under a base URL, or `None` where the join
/// is rejected.
pub fn login_url(base: &str) -> (r: Option<String>)
    ensures
        r is Some <==> url_join(base@, LOGIN_ENDPOINT@) is Some,
        r matches Some(u) ==> u@ == url_join(base@, LOGIN_ENDPOINT@)->Some_0,
{
    join_url(base, LOGIN_ENDPOINT)
}

/// Reads an authentication reply. An error-class status is the server
/// rejecting the call, and carries the reply text back to the user; a
/// non-error status must have decoded to a token, else the reply was
/// malformed; otherwise the token is returned exactly as decoded.
pub fn interpret_auth_reply(status: u16, body_text: String, parsed: Option<TokenResponse>) -> (r:
    Result<String, ServerAuthError>)
    ensures
        400 <= status < 600 ==> (r matches Err(ServerAuthError::ServerError(t)) && t@
            == body_text@),
        (!(400 <= status < 600) && parsed is None) ==> r matches Err(ServerAuthError::Malformed),
        (!(400 <= status < 600) && parsed is Some) ==> (r matches Ok(tok) && tok@
            == parsed->Some_0.token@),
{
    if 400 <= status && status < 600 {
        return Err(ServerAuthError::ServerError(body_text));
    }
    match parsed {
        Some(p) => Ok(p.token),
        None => Err(ServerAuthError::Malformed),
    }
}

} // verus!
