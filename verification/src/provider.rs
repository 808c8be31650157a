use vstd::prelude::*;

use crate::jwt::AccessClaims;

verus! {

/// A login request: the authorization code obtained from the identity
/// provider, and an optional redirect target to return the user to.
pub struct GitHubTokenRequest {
    pub code: String,
    pub redirect_to: Option<String>,
}

/// The success shape of the provider's code-exchange response.
pub struct GitHubAccessTokenResponse {
    pub access_token: String,
}

/// The profile the identity provider reports for an authenticated user.
pub struct GitHubUser {
    pub id: u64,
    pub login: String,
    pub avatar_url: Option<String>,
}

/// What the identity endpoint answers: the subject recovered from the
/// access credential, and the credential itself.
pub struct MeResponse {
    pub user_id: String,
    pub access_token: String,
}

/// The configuration read endpoint's payload: the allow-listed redirect
/// origins, passed through unchanged.
pub struct AppConfigResponse {
    pub allowed_redirect_origins: Vec<String>,
}

pub open spec fn default_redirect_spec() -> Seq<char> {
    "https://auth-debug.pages.dev"@
}

/// The redirect target a login request asks for, or the default one.
pub fn redirect_target(req: &GitHubTokenRequest) -> (r: String)
    ensures
        req.redirect_to matches Some(t) ==> r@ == t@,
        req.redirect_to is None ==> r@ == default_redirect_spec(),
{
    match &req.redirect_to {
        Some(t) => t.clone(),
        None => "https://auth-debug.pages.dev".to_owned(),
    }
}

/// Builds the identity endpoint's payload from verified access claims: the
/// reported user is exactly the credential's subject.
pub fn me_response(claims: &AccessClaims, access_token: &str) -> (r: MeResponse)
    ensures
        r.user_id@ == claims.sub@,
        r.access_token@ == access_token@,
{
    MeResponse { user_id: claims.sub.clone(), access_token: access_token.to_owned() }
}

} // verus!
