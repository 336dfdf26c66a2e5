//! The pure side of the API client: the credentials it holds, the names of
//! the environment variables they come from, and the construction of the
//! request URLs and header values for the two endpoints. The binary sends
//! the requests these functions describe and feeds the responses back.

use vstd::prelude::*;
use crate::error::AppErr;

verus! {

/// The environment variable holding the bearer token.
pub fn token_var_name() -> (s: String)
    ensures
        s@ == "GITHUB_TOKEN"@,
{
    String::from_str("GITHUB_TOKEN")
}

/// The environment variable holding the default username.
pub fn username_var_name() -> (s: String)
    ensures
        s@ == "GITHUB_USERNAME"@,
{
    String::from_str("GITHUB_USERNAME")
}

/// The client: the two startup credentials, read once and held for the
/// process lifetime. Every call is a fresh round trip; the client keeps
/// no other state.
pub struct GitHub {
    pub auth_token: String,
    pub username: String,
}

impl GitHub {
    pub fn new(auth_token: &str, username: &str) -> (g: GitHub)
        ensures
            g.auth_token@ == auth_token@,
            g.username@ == username@,
    {
        GitHub { auth_token: String::from_str(auth_token), username: String::from_str(username) }
    }

    /// The value of the authorization header every request carries.
    pub fn auth_header_value(&self) -> (s: String)
        ensures
            s@ == "Bearer "@ + self.auth_token@,
    {
        let mut s = String::from_str("Bearer ");
        s.append(self.auth_token.as_str());
        s
    }

    /// The value of the client-identifying user-agent header every request
    /// carries; the upstream API rejects requests without one.
    pub fn user_agent_value(&self) -> (s: String)
        ensures
            s@ == self.username@,
    {
        self.username.clone()
    }
}

/// The URL of the search endpoint. The free-text query travels as a query
/// parameter, attached by the transport layer, which also encodes it.
pub fn search_users_url() -> (u: String)
    ensures
        u@ == "https://api.github.com/search/users"@,
{
    String::from_str("https://api.github.com/search/users")
}

/// The URL of the user-by-login endpoint for `login`.
pub fn user_url(login: &str) -> (u: String)
    ensures
        u@ == "https://api.github.com/users/"@ + login@,
{
    let mut u = String::from_str("https://api.github.com/users/");
    u.append(login);
    u
}

/// Builds the client from the two startup variables, each `None` where the
/// environment did not supply it. Absence of either is fatal, and the error
/// names the variable that was missing; the token is checked first.
pub fn load_credentials(token: Option<String>, username: Option<String>) -> (r: Result<
    GitHub,
    AppErr,
>)
    ensures
        token is Some && username is Some ==> (r matches Ok(g) && g.auth_token@
            == token->0@ && g.username@ == username->0@),
        token is None ==> (r matches Err(e) && e matches AppErr::MissingVar { name } && name@
            == "GITHUB_TOKEN"@),
        token is Some && username is None ==> (r matches Err(e) && e matches AppErr::MissingVar {
            name,
        } && name@ == "GITHUB_USERNAME"@),
{
    match token {
        None => Err(AppErr::MissingVar { name: token_var_name() }),
        Some(auth_token) => match username {
            None => Err(AppErr::MissingVar { name: username_var_name() }),
            Some(username) => Ok(GitHub { auth_token, username }),
        },
    }
}

} // verus!
