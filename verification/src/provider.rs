//! What is asked of the provider: the addresses and header values of its two requests.

use vstd::prelude::*;

verus! {

/// The address that lists the repositories of the user.
pub const REPOSITORIES_URL: &'static str =
    "https://api.github.com/user/repos?affiliation=owner&per_page=100";

/// The media type that is asked for.
pub const ACCEPT_VALUE: &'static str = "application/vnd.github+json";

/// The name of the header that names the version of the interface.
pub const API_VERSION_HEADER: &'static str = "X-GitHub-Api-Version";

/// The version of the interface that is asked for.
pub const API_VERSION: &'static str = "2022-11-28";

/// The name under which the requests are made.
pub const USER_AGENT_VALUE: &'static str = "reqwest";

/// The address of the alerts of one repository of a user.
pub open spec fn alerts_address(username: Seq<char>, repository: Seq<char>) -> Seq<char> {
    "https://api.github.com/repos/"@ + username + "/"@ + repository
        + "/dependabot/alerts?per_page=100"@
}

/// The value of the authorization header for a token.
pub open spec fn bearer(token: Seq<char>) -> Seq<char> {
    "Bearer "@ + token
}

/// The address of the alerts of one repository of a user.
pub fn alerts_url(username: &str, repository: &str) -> (url: String)
    ensures
        url@ == alerts_address(username@, repository@),
{
    let mut url = String::from_str("https://api.github.com/repos/");
    url.append(username);
    url.append("/");
    url.append(repository);
    url.append("/dependabot/alerts?per_page=100");
    url
}

/// The value of the authorization header for a token.
pub fn authorization_value(token: &str) -> (value: String)
    ensures
        value@ == bearer(token@),
{
    String::from_str("Bearer ").concat(token)
}

} // verus!
