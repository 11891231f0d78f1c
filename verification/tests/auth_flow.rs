use oauth_gate::authorize::{authorize, check_credentials, parse_user_id};
use oauth_gate::credentials::{generate_client_id_and_secrets, ClientCredentials, CredentialStore};
use oauth_gate::errors::AuthError;
use oauth_gate::oauth::AuthResponse;
use oauth_gate::token::{mint_token, token_middleware, validate_token, AuthPayload, Keys};

fn profile(id: u64) -> AuthResponse {
    AuthResponse {
        name: String::from("Octo Cat"),
        login: String::from("octocat"),
        id,
    }
}

fn is_alnum(s: &str) -> bool {
    s.chars().all(|c| c.is_ascii_alphanumeric())
}

#[test]
fn generated_credentials_have_fixed_shape() {
    let creds = generate_client_id_and_secrets(profile(7));
    assert_eq!(creds.uuid, 7);
    assert_eq!(creds.client_id.len(), 16);
    assert_eq!(creds.client_secret.len(), 32);
    assert!(is_alnum(&creds.client_id));
    assert!(is_alnum(&creds.client_secret));
}

#[test]
fn new_identity_creates_exactly_one_record() {
    let mut store = CredentialStore::new();
    assert_eq!(store.len(), 0);
    let creds = store.get_or_create(&profile(7));
    assert_eq!(store.len(), 1);
    assert_eq!(creds.uuid, 7);
    let stored = store.get(7).expect("record must exist");
    assert_eq!(stored, &creds);
}

#[test]
fn repeated_callbacks_return_identical_credentials() {
    let mut store = CredentialStore::new();
    let first = store.get_or_create(&profile(7));
    let second = store.get_or_create(&profile(7));
    assert_eq!(first.client_id, second.client_id);
    assert_eq!(first.client_secret, second.client_secret);
    assert_eq!(store.len(), 1);
}

#[test]
fn authorize_unknown_user_gives_fixed_message() {
    let store = CredentialStore::new();
    let r = authorize(
        Some(String::from("abc")),
        Some(String::from("xyz")),
        Some(String::from("42")),
        &store,
    );
    let e = r.expect_err("must be refused");
    assert_eq!(e, AuthError::ClientIDOrSecret);
    assert_eq!(e.to_string(), "Invalid Client ID or Secret");
    assert_eq!(e.status(), 400);
}

#[test]
fn wrong_secret_and_unknown_user_are_indistinguishable() {
    let mut store = CredentialStore::new();
    store.put(ClientCredentials {
        uuid: 7,
        client_id: String::from("goodid0123456789"),
        client_secret: String::from("goodsecret0123456789012345678901"),
    });
    let wrong_secret = check_credentials(
        &AuthPayload {
            client_id: String::from("goodid0123456789"),
            client_secret: String::from("badsecret"),
            user_id: String::from("7"),
        },
        &store,
    )
    .expect_err("wrong secret must fail");
    let unknown_user = check_credentials(
        &AuthPayload {
            client_id: String::from("goodid0123456789"),
            client_secret: String::from("goodsecret0123456789012345678901"),
            user_id: String::from("8"),
        },
        &store,
    )
    .expect_err("unknown user must fail");
    assert_eq!(wrong_secret.to_string(), unknown_user.to_string());
    assert_eq!(wrong_secret.status(), unknown_user.status());
}

#[test]
fn matching_triple_is_accepted() {
    let mut store = CredentialStore::new();
    let creds = store.get_or_create(&profile(42));
    let r = authorize(
        Some(creds.client_id.clone()),
        Some(creds.client_secret.clone()),
        Some(String::from("42")),
        &store,
    );
    assert_eq!(r.expect("must be accepted"), creds);
}

#[test]
fn missing_headers_are_refused() {
    let store = CredentialStore::new();
    let no_id = authorize(None, Some(String::from("x")), Some(String::from("1")), &store);
    assert_eq!(no_id.expect_err("no client id"), AuthError::ClientIDOrSecret);
    let no_secret = authorize(Some(String::from("x")), None, Some(String::from("1")), &store);
    assert_eq!(no_secret.expect_err("no secret"), AuthError::ClientIDOrSecret);
    let no_user = authorize(Some(String::from("x")), Some(String::from("y")), None, &store);
    let e = no_user.expect_err("no user id");
    assert_eq!(e, AuthError::MissingUserID);
    assert_eq!(e.to_string(), "Missing User ID");
    assert_eq!(e.status(), 400);
    let empty_user = authorize(
        Some(String::from("x")),
        Some(String::from("y")),
        Some(String::new()),
        &store,
    );
    assert_eq!(empty_user.expect_err("empty user id"), AuthError::MissingUserID);
}

#[test]
fn empty_fields_are_refused() {
    let mut store = CredentialStore::new();
    let creds = store.get_or_create(&profile(5));
    let empty_id = check_credentials(
        &AuthPayload {
            client_id: String::new(),
            client_secret: creds.client_secret.clone(),
            user_id: String::from("5"),
        },
        &store,
    );
    assert_eq!(empty_id.expect_err("empty id"), AuthError::ClientIDOrSecret);
    let empty_secret = check_credentials(
        &AuthPayload {
            client_id: creds.client_id.clone(),
            client_secret: String::new(),
            user_id: String::from("5"),
        },
        &store,
    );
    assert_eq!(empty_secret.expect_err("empty secret"), AuthError::ClientIDOrSecret);
}

#[test]
fn user_ids_are_read_as_canonical_decimals() {
    assert_eq!(parse_user_id("7"), Some(7));
    assert_eq!(parse_user_id("0"), Some(0));
    assert_eq!(parse_user_id("18446744073709551615"), Some(u64::MAX));
    assert_eq!(parse_user_id("18446744073709551616"), None);
    assert_eq!(parse_user_id("07"), None);
    assert_eq!(parse_user_id(""), None);
    assert_eq!(parse_user_id("4x2"), None);
}

#[test]
fn minted_token_carries_subject_and_expiry() {
    let keys = Keys::new(b"secret");
    let now = jsonwebtoken::get_current_timestamp();
    let body = mint_token(&keys, &profile(7), now).expect("minting must succeed");
    assert_eq!(body.token_type, "Bearer");
    let header = format!("Bearer {}", body.token);
    let claims = validate_token(&keys, &header, now).expect("fresh token must verify");
    assert_eq!(claims.sub, "octocat");
    assert_eq!(claims.company, "Octo Cat");
    assert_eq!(claims.exp, now + 3600);
}

#[test]
fn unrepresentable_expiry_fails_minting() {
    let keys = Keys::new(b"secret");
    let e = mint_token(&keys, &profile(7), u64::MAX).expect_err("expiry cannot be represented");
    assert_eq!(e, AuthError::TokenCreation);
    assert_eq!(e.to_string(), "Token Creation Error");
    assert_eq!(e.status(), 500);
}

#[test]
fn stale_token_is_expired() {
    let keys = Keys::new(b"secret");
    let now = jsonwebtoken::get_current_timestamp();
    let body = mint_token(&keys, &profile(7), now).expect("minting must succeed");
    let header = format!("Bearer {}", body.token);
    let e = validate_token(&keys, &header, now + 7200).expect_err("stale token");
    assert_eq!(e, AuthError::ExpiredToken);
    assert_eq!(e.status(), 403);
}

#[test]
fn long_expired_token_is_reported_expired() {
    let keys = Keys::new(b"secret");
    let now = jsonwebtoken::get_current_timestamp();
    let minted_at = now - 10_000;
    let body = mint_token(&keys, &profile(7), minted_at).expect("minting must succeed");
    let header = format!("Bearer {}", body.token);
    let e = validate_token(&keys, &header, now).expect_err("expiry lies far in the past");
    assert_eq!(e, AuthError::ExpiredToken);
}

#[test]
fn foreign_or_malformed_tokens_are_invalid() {
    let keys = Keys::new(b"secret");
    let other = Keys::new(b"another");
    let now = jsonwebtoken::get_current_timestamp();
    let body = mint_token(&keys, &profile(7), now).expect("minting must succeed");
    let header = format!("Bearer {}", body.token);
    let e = validate_token(&other, &header, now).expect_err("wrong key");
    assert_eq!(e, AuthError::InvalidToken);
    let tampered = format!("{}x", header);
    let e = validate_token(&keys, &tampered, now).expect_err("tampered token");
    assert_eq!(e, AuthError::InvalidToken);
    let e = validate_token(&keys, &body.token, now).expect_err("no prefix");
    assert_eq!(e, AuthError::InvalidToken);
}

#[test]
fn middleware_gates_on_the_header() {
    let keys = Keys::new(b"secret");
    let now = jsonwebtoken::get_current_timestamp();
    let missing = token_middleware(&keys, None, now);
    let e = missing.expect_err("missing header");
    assert_eq!(e, AuthError::MissingToken);
    assert_eq!(e.to_string(), "Missing Token");
    assert_eq!(e.status(), 403);
    let body = mint_token(&keys, &profile(7), now).expect("minting must succeed");
    let header = format!("Bearer {}", body.token);
    assert!(token_middleware(&keys, Some(&header), now).is_ok());
}

#[test]
fn error_table_is_fixed() {
    assert_eq!(AuthError::InvalidToken.to_string(), "Invalid Token");
    assert_eq!(AuthError::InvalidToken.status(), 401);
    assert_eq!(AuthError::MissingToken.to_string(), "Missing Token");
    assert_eq!(AuthError::MissingToken.status(), 403);
    assert_eq!(AuthError::ExpiredToken.to_string(), "Expired Token");
    assert_eq!(AuthError::ExpiredToken.status(), 403);
    assert_eq!(AuthError::TokenCreation.to_string(), "Token Creation Error");
    assert_eq!(AuthError::TokenCreation.status(), 500);
    assert_eq!(AuthError::ClientIDOrSecret.to_string(), "Invalid Client ID or Secret");
    assert_eq!(AuthError::ClientIDOrSecret.status(), 400);
    assert_eq!(AuthError::MissingUserID.to_string(), "Missing User ID");
    assert_eq!(AuthError::MissingUserID.status(), 400);
}
