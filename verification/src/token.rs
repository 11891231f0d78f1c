use vstd::prelude::*;
use vstd::string::StrSliceExecFns;
use vstd::string::StringExecFns;
use crate::errors::AuthError;
use crate::oauth::AuthResponse;

verus! {

/// The claim set of a bearer token: subject, company and expiry time in
/// seconds since the epoch.
#[derive(Debug, PartialEq, Eq)]
pub struct Claims {
    pub sub: String,
    pub company: String,
    pub exp: u64,
}

impl Clone for Claims {
    fn clone(&self) -> (r: Self)
        ensures
            r == *self,
    {
        Claims { sub: self.sub.clone(), company: self.company.clone(), exp: self.exp }
    }
}

/// The credential triple a client presents to the authorize endpoint.
#[derive(Debug, PartialEq, Eq)]
pub struct AuthPayload {
    pub client_id: String,
    pub client_secret: String,
    pub user_id: String,
}

/// The authorize endpoint's successful answer: a bearer token.
#[derive(Debug, PartialEq, Eq)]
pub struct AuthBody {
    pub token: String,
    pub token_type: String,
}

impl AuthBody {
    pub fn new_token(access_token: String) -> (r: Self)
        ensures
            r.token == access_token,
            r.token_type@ == "Bearer"@,
    {
        AuthBody { token: access_token, token_type: String::from_str("Bearer") }
    }
}

/// The process-wide signing secret, injected once at service start.
/// Rotating it invalidates every outstanding token.
pub struct Keys {
    secret: Vec<u8>,
}

impl View for Keys {
    type V = Seq<u8>;

    closed spec fn view(&self) -> Seq<u8> {
        self.secret@
    }
}

impl Keys {
    pub fn new(secret: &[u8]) -> (r: Self)
        ensures
            r@ == secret@,
    {
        Keys { secret: vstd::slice::slice_to_vec(secret) }
    }
}

/// The signed HS256 token that the signing library produces for a secret and
/// a claim set. It is a deterministic function of these arguments alone; its
/// concrete text is stated nowhere.
pub uninterp spec fn token_of(secret: Seq<u8>, sub: Seq<char>, company: Seq<char>, exp: u64) -> Seq<char>;

/// Relies on jsonwebtoken::encode with a key from
/// jsonwebtoken::EncodingKey::from_secret and a default HS256 header: the
/// key's algorithm family always matches the header's, HMAC signing always
/// succeeds, and these claims always serialize, so a token always comes
/// back; its text is computed from the secret and the claims alone, so it
/// is `token_of` of them.
#[verifier::external_body]
fn jwt_encode(keys: &Keys, claims: &Claims) -> (r: Option<String>)
    ensures
        r is Some,
        r matches Some(t) ==> t@ == token_of(keys@, claims.sub@, claims.company@, claims.exp),
{
    let mut payload = serde_json::Map::new();
    payload.insert("sub".to_string(), serde_json::Value::from(claims.sub.clone()));
    payload.insert("company".to_string(), serde_json::Value::from(claims.company.clone()));
    payload.insert("exp".to_string(), serde_json::Value::from(claims.exp));
    jsonwebtoken::encode(
        &jsonwebtoken::Header::default(),
        &serde_json::Value::Object(payload),
        &jsonwebtoken::EncodingKey::from_secret(&keys.secret),
    ).ok()
}

/// Relies on jsonwebtoken::decode with a key from
/// jsonwebtoken::DecodingKey::from_secret, with the library's own expiry
/// check and required-claim list switched off, so that the result is a
/// function of the token and the secret alone and the caller's comparison
/// is the sole expiry authority. A token that reads
/// `token_of(secret, sub, company, exp)` carries a valid HS256 signature
/// and a well-formed payload, so it decodes; and whatever decodes is
/// exactly the token's payload.
#[verifier::external_body]
fn jwt_decode(keys: &Keys, token: &str) -> (r: Option<Claims>)
    ensures
        (exists|s: Seq<char>, co: Seq<char>, e: u64| token@ == token_of(keys@, s, co, e)) ==> r
            is Some,
        r matches Some(c) ==> forall|s: Seq<char>, co: Seq<char>, e: u64|
            token@ == token_of(keys@, s, co, e) ==> c.sub@ == s && c.company@ == co && c.exp == e,
{
    let mut validation = jsonwebtoken::Validation::default();
    validation.validate_exp = false;
    validation.required_spec_claims = std::collections::HashSet::new();
    let data = jsonwebtoken::decode::<serde_json::Value>(
        token,
        &jsonwebtoken::DecodingKey::from_secret(&keys.secret),
        &validation,
    ).ok()?;
    let sub = data.claims.get("sub")?.as_str()?.to_string();
    let company = data.claims.get("company")?.as_str()?.to_string();
    let exp = data.claims.get("exp")?.as_u64()?;
    Some(Claims { sub, company, exp })
}

/// Mints the bearer token for a freshly fetched profile: subject is the
/// login handle, company the display name, expiry `now + 3600` seconds.
pub fn mint_token(keys: &Keys, profile: &AuthResponse, now: u64) -> (r: Result<AuthBody, AuthError>)
    ensures
        now > u64::MAX - 3600 ==> r == Err::<AuthBody, AuthError>(AuthError::TokenCreation),
        now <= u64::MAX - 3600 ==> (r matches Ok(b) && b.token_type@ == "Bearer"@
            && b.token@ == token_of(keys@, profile.login@, profile.name@, (now + 3600) as u64)),
        r matches Err(e) ==> e == AuthError::TokenCreation,
{
    if now > u64::MAX - 3600 {
        return Err(AuthError::TokenCreation);
    }
    let claims = Claims {
        sub: profile.login.clone(),
        company: profile.name.clone(),
        exp: now + 3600,
    };
    match jwt_encode(keys, &claims) {
        Some(t) => Ok(AuthBody::new_token(t)),
        None => Err(AuthError::TokenCreation),
    }
}

/// Whether a header value begins with the literal `Bearer `.
pub open spec fn has_bearer_prefix(h: Seq<char>) -> bool {
    h.len() >= 7 && h.subrange(0, 7) == "Bearer "@
}

/// Whether `s` begins with `prefix`.
fn starts_with_str(s: &str, prefix: &str) -> (r: bool)
    ensures
        r == (s@.len() >= prefix@.len() && s@.subrange(0, prefix@.len() as int) == prefix@),
{
    let n = prefix.unicode_len();
    if s.unicode_len() < n {
        return false;
    }
    let mut i: usize = 0;
    while i < n
        invariant
            i <= n,
            n == prefix@.len(),
            s@.len() >= n,
            forall|j: int| 0 <= j < i ==> s@[j] == prefix@[j],
        decreases n - i,
    {
        if s.get_char(i) != prefix.get_char(i) {
            proof {
                assert(s@.subrange(0, n as int)[i as int] != prefix@[i as int]);
            }
            return false;
        }
        i += 1;
    }
    proof {
        assert(s@.subrange(0, n as int) =~= prefix@);
    }
    true
}

/// Judges what the signing library handed back for a presented token: no
/// claims mean an invalid token, claims whose expiry has passed mean an
/// expired one, and anything else passes through.
pub fn evaluate_decoded(decoded: Option<Claims>, now: u64) -> (r: Result<Claims, AuthError>)
    ensures
        decoded is None ==> r == Err::<Claims, AuthError>(AuthError::InvalidToken),
        decoded matches Some(c) ==> (if c.exp <= now {
            r == Err::<Claims, AuthError>(AuthError::ExpiredToken)
        } else {
            r == Ok::<Claims, AuthError>(c)
        }),
{
    match decoded {
        None => Err(AuthError::InvalidToken),
        Some(c) => {
            if c.exp <= now {
                Err(AuthError::ExpiredToken)
            } else {
                Ok(c)
            }
        },
    }
}

/// Verifies a presented `Authorization` header value: it must carry the
/// `Bearer ` prefix, the rest must carry a valid signature, and the expiry
/// must lie after `now`. An accepted token that reads as a minted one
/// carries exactly the minted claims; and a minted token presented behind
/// the prefix is accepted when its expiry lies after `now`, rejected as
/// expired otherwise.
pub fn validate_token(keys: &Keys, token: &str, now: u64) -> (r: Result<Claims, AuthError>)
    ensures
        !has_bearer_prefix(token@) ==> r == Err::<Claims, AuthError>(AuthError::InvalidToken),
        r matches Ok(c) ==> has_bearer_prefix(token@) && c.exp > now && (forall|
            s: Seq<char>,
            co: Seq<char>,
            e: u64,
        |
            token@.skip(7) == token_of(keys@, s, co, e) ==> c.sub@ == s && c.company@ == co
                && c.exp == e),
        forall|s: Seq<char>, co: Seq<char>, e: u64|
            has_bearer_prefix(token@) && token@.skip(7) == token_of(keys@, s, co, e) ==> (if e
                <= now {
                r == Err::<Claims, AuthError>(AuthError::ExpiredToken)
            } else {
                r matches Ok(c) && c.sub@ == s && c.company@ == co && c.exp == e
            }),
        r matches Err(e) ==> e == AuthError::InvalidToken || e == AuthError::ExpiredToken,
        r == Err::<Claims, AuthError>(AuthError::ExpiredToken) ==> has_bearer_prefix(token@),
{
    proof {
        reveal_strlit("Bearer ");
    }
    if !starts_with_str(token, "Bearer ") {
        return Err(AuthError::InvalidToken);
    }
    let n = token.unicode_len();
    let rest = token.substring_char(7, n);
    proof {
        assert(rest@ =~= token@.skip(7));
    }
    let decoded = jwt_decode(keys, rest);
    evaluate_decoded(decoded, now)
}

/// Gates a protected request: a missing `Authorization` header is refused as
/// a missing token, and anything else passes exactly when `validate_token`
/// accepts it — in particular, a minted token behind the `Bearer ` prefix
/// passes while its expiry lies ahead and is refused as expired after.
pub fn token_middleware(keys: &Keys, auth_header: Option<&String>, now: u64) -> (r: Result<
    (),
    AuthError,
>)
    ensures
        auth_header is None ==> r == Err::<(), AuthError>(AuthError::MissingToken),
        auth_header matches Some(h) && !has_bearer_prefix(h@) ==> r == Err::<(), AuthError>(
            AuthError::InvalidToken,
        ),
        r is Ok ==> (auth_header matches Some(h) && has_bearer_prefix(h@)),
        (match auth_header {
            Some(h) => forall|s: Seq<char>, co: Seq<char>, e: u64|
                has_bearer_prefix(h@) && h@.skip(7) == token_of(keys@, s, co, e) ==> (if e <= now {
                    r == Err::<(), AuthError>(AuthError::ExpiredToken)
                } else {
                    r is Ok
                }),
            None => true,
        }),
        r matches Err(e) ==> e == AuthError::MissingToken || e == AuthError::InvalidToken
            || e == AuthError::ExpiredToken,
{
    match auth_header {
        None => Err(AuthError::MissingToken),
        Some(h) => match validate_token(keys, h.as_str(), now) {
            Ok(_) => Ok(()),
            Err(e) => Err(e),
        },
    }
}

} // verus!
