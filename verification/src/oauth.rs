use vstd::prelude::*;
use vstd::string::StringExecFns;
use oauth2::basic::BasicClient;
use oauth2::{AuthUrl, ClientId, ClientSecret, CsrfToken, PkceCodeChallenge, RedirectUrl, Scope, TokenUrl};

verus! {

/// The identity profile the provider reports for a user: a display name, a
/// login handle and a numeric account id.
#[derive(Debug, PartialEq, Eq)]
pub struct AuthResponse {
    pub name: String,
    pub login: String,
    pub id: u64,
}

impl Clone for AuthResponse {
    fn clone(&self) -> (r: Self)
        ensures
            r == *self,
    {
        AuthResponse { name: self.name.clone(), login: self.login.clone(), id: self.id }
    }
}

/// The provider's answer to a successful code exchange.
#[derive(Debug, PartialEq, Eq)]
pub struct AuthToken {
    pub access_token: String,
    pub token_type: String,
    pub scope: String,
}

impl Clone for AuthToken {
    fn clone(&self) -> (r: Self)
        ensures
            r == *self,
    {
        AuthToken {
            access_token: self.access_token.clone(),
            token_type: self.token_type.clone(),
            scope: self.scope.clone(),
        }
    }
}

/// A freshly built provider authorization URL together with the CSRF token
/// that its `state` parameter carries.
#[derive(Debug, PartialEq, Eq)]
pub struct AuthURL {
    pub url: String,
    pub csrf_token: String,
}

impl Clone for AuthURL {
    fn clone(&self) -> (r: Self)
        ensures
            r == *self,
    {
        AuthURL { url: self.url.clone(), csrf_token: self.csrf_token.clone() }
    }
}

/// The alphabet of url-safe base64: letters, digits, `-` and `_`.
pub open spec fn is_base64_url_char(c: char) -> bool {
    ('A' <= c && c <= 'Z') || ('a' <= c && c <= 'z') || ('0' <= c && c <= '9') || c == '-' || c
        == '_'
}

/// Whether `needle` occurs contiguously inside `hay`.
pub open spec fn contains_seq(hay: Seq<char>, needle: Seq<char>) -> bool {
    exists|i: int|
        0 <= i && i + needle.len() <= hay.len() && #[trigger] hay.subrange(i, i + needle.len())
            == needle
}

/// Relies on oauth2's `BasicClient::authorize_url` and
/// `AuthorizationRequest::url`: the three fixed GitHub endpoint texts
/// parse, so building cannot fail; the query pairs are form-urlencoded in
/// the order response_type, client_id, state, code_challenge,
/// code_challenge_method, redirect_uri, scope, an encoding that keeps
/// letters, digits, `-`, `_` and `.` verbatim, writes a space as `+`, `:`
/// as `%3A` and `/` as `%2F`; and `CsrfToken::new_random` is the url-safe
/// base64 text of 16 random bytes, 22 such characters. The token and the
/// PKCE challenge draw fresh randomness, so nothing further is promised.
#[verifier::external_body]
fn github_authorization_request(client_id: &str, client_secret: &str) -> (r: AuthURL)
    ensures
        r.url@.len() >= 41,
        r.url@.subrange(0, 41) == "https://github.com/login/oauth/authorize?"@,
        r.csrf_token@.len() == 22,
        forall|j: int| 0 <= j < r.csrf_token@.len() ==> is_base64_url_char(#[trigger] r.csrf_token@[j]),
        contains_seq(r.url@, "state="@ + r.csrf_token@),
        contains_seq(r.url@, "code_challenge="@),
        contains_seq(r.url@, "code_challenge_method=S256"@),
        contains_seq(r.url@, "redirect_uri=https%3A%2F%2Fapi.shivadityas.com%2Fcallback%2Fgithub"@),
        contains_seq(r.url@, "scope=user%3Aemail+read%3Auser+read%3Aorg+public_repo"@),
        (forall|j: int| 0 <= j < client_id@.len() ==> is_base64_url_char(#[trigger] client_id@[j]))
            ==> contains_seq(r.url@, "client_id="@ + client_id@ + "&"@),
{
    let client = BasicClient::new(
        ClientId::new(client_id.to_string()),
        Some(ClientSecret::new(client_secret.to_string())),
        AuthUrl::new("https://github.com/login/oauth/authorize".to_string()).unwrap(),
        Some(TokenUrl::new("https://github.com/login/oauth/access_token".to_string()).unwrap()),
    ).set_redirect_uri(RedirectUrl::new("https://api.shivadityas.com/callback/github".to_string()).unwrap());
    let (challenge, _verifier) = PkceCodeChallenge::new_random_sha256();
    let mut request = client.authorize_url(CsrfToken::new_random).set_pkce_challenge(challenge);
    for scope in ["user:email", "read:user", "read:org", "public_repo"] {
        request = request.add_scope(Scope::new(scope.to_string()));
    }
    let (url, csrf_token) = request.url();
    AuthURL { url: url.to_string(), csrf_token: csrf_token.secret().clone() }
}

/// Builds the provider redirect for the authorization-code flow: the GitHub
/// authorization URL carrying a PKCE challenge and a fresh CSRF token as its
/// `state` parameter. Building never fails, since the endpoint texts are
/// fixed and well formed. The PKCE verifier is discarded here, so the later
/// code exchange does not forward it; the challenge still rides along in
/// the URL.
pub fn github_auth_url_builder(client_id: &str, client_secret: &str) -> (r: AuthURL)
    ensures
        r.url@.len() >= 41,
        r.url@.subrange(0, 41) == "https://github.com/login/oauth/authorize?"@,
        r.csrf_token@.len() == 22,
        forall|j: int| 0 <= j < r.csrf_token@.len() ==> is_base64_url_char(#[trigger] r.csrf_token@[j]),
        contains_seq(r.url@, "state="@ + r.csrf_token@),
        contains_seq(r.url@, "code_challenge="@),
        contains_seq(r.url@, "code_challenge_method=S256"@),
        contains_seq(r.url@, "redirect_uri=https%3A%2F%2Fapi.shivadityas.com%2Fcallback%2Fgithub"@),
        contains_seq(r.url@, "scope=user%3Aemail+read%3Auser+read%3Aorg+public_repo"@),
        (forall|j: int| 0 <= j < client_id@.len() ==> is_base64_url_char(#[trigger] client_id@[j]))
            ==> contains_seq(r.url@, "client_id="@ + client_id@ + "&"@),
{
    github_authorization_request(client_id, client_secret)
}

/// The `Set-Cookie` value binding the CSRF token to the round trip:
/// `auth_token=<csrf>; Path=/`.
pub fn csrf_cookie_value(csrf_token: &str) -> (r: String)
    ensures
        r@ == "auth_token="@ + csrf_token@ + "; Path=/"@,
{
    let mut cookie = String::from_str("auth_token=");
    cookie.append(csrf_token);
    cookie.append("; Path=/");
    cookie
}

} // verus!
