use vstd::prelude::*;
use vstd::string::StrSliceExecFns;
use crate::credentials::{ClientCredentials, CredentialStore};
use crate::errors::AuthError;
use crate::token::AuthPayload;

verus! {

pub open spec fn is_decimal_digit(c: char) -> bool {
    '0' <= c && c <= '9'
}

/// One step of reading a decimal number left to right: a non-digit or a
/// value that no longer fits in a `u64` gives up.
pub open spec fn parse_step(acc: Option<u64>, c: char) -> Option<u64> {
    match acc {
        None => None,
        Some(v) => if !is_decimal_digit(c) {
            None
        } else {
            let d = (c as u32 - '0' as u32) as u64;
            if v > (u64::MAX - d) / 10 {
                None
            } else {
                Some((10 * v + d) as u64)
            }
        },
    }
}

pub open spec fn parse_fold(s: Seq<char>) -> Option<u64>
    decreases s.len(),
{
    if s.len() == 0 {
        Some(0u64)
    } else {
        parse_step(parse_fold(s.drop_last()), s.last())
    }
}

/// The account id a user-id string denotes: its value as a decimal number,
/// provided the string is exactly how the store writes keys — non-empty,
/// all digits, no leading zero, and within `u64`. Anything else names no
/// stored key.
pub open spec fn parse_user_id_spec(s: Seq<char>) -> Option<u64> {
    if s.len() == 0 {
        None
    } else if s.len() > 1 && s[0] == '0' {
        None
    } else {
        parse_fold(s)
    }
}

proof fn lemma_parse_fold_none(s: Seq<char>, i: int)
    requires
        0 <= i < s.len(),
        parse_step(parse_fold(s.take(i)), s[i]) == None::<u64>,
    ensures
        parse_fold(s) == None::<u64>,
    decreases s.len(),
{
    if i == s.len() - 1 {
        assert(s.take(i) =~= s.drop_last());
    } else {
        assert(s.drop_last().take(i) =~= s.take(i));
        lemma_parse_fold_none(s.drop_last(), i);
    }
}

/// Reads a user-id string as a store key.
pub fn parse_user_id(s: &str) -> (r: Option<u64>)
    ensures
        r == parse_user_id_spec(s@),
{
    let n = s.unicode_len();
    if n == 0 {
        return None;
    }
    if n > 1 && s.get_char(0) == '0' {
        return None;
    }
    let mut acc: u64 = 0;
    let mut i: usize = 0;
    while i < n
        invariant
            i <= n,
            n == s@.len(),
            parse_fold(s@.take(i as int)) == Some(acc),
        decreases n - i,
    {
        let c = s.get_char(i);
        proof {
            assert(s@.take(i + 1).drop_last() =~= s@.take(i as int));
        }
        if c < '0' || c > '9' {
            proof {
                lemma_parse_fold_none(s@, i as int);
            }
            return None;
        }
        let d = (c as u32 - '0' as u32) as u64;
        if acc > (u64::MAX - d) / 10 {
            proof {
                lemma_parse_fold_none(s@, i as int);
            }
            return None;
        }
        acc = acc * 10 + d;
        i += 1;
    }
    proof {
        assert(s@.take(n as int) =~= s@);
    }
    Some(acc)
}

/// The record the store holds for a user-id string, if any.
pub open spec fn lookup_spec(m: Map<u64, ClientCredentials>, user_id: Seq<char>) -> Option<
    ClientCredentials,
> {
    match parse_user_id_spec(user_id) {
        Some(id) => if m.contains_key(id) {
            Some(m[id])
        } else {
            None
        },
        None => None,
    }
}

/// Whether a stored record matches a presented pair exactly.
pub open spec fn credentials_match(
    stored: ClientCredentials,
    client_id: Seq<char>,
    client_secret: Seq<char>,
) -> bool {
    stored.client_id@ == client_id && stored.client_secret@ == client_secret
}

/// What checking a presented triple answers: an empty client id or secret,
/// an unknown user id, and a mismatched pair are all refused with the same
/// error; only a full match hands the stored record back.
pub open spec fn check_credentials_spec(
    m: Map<u64, ClientCredentials>,
    payload: AuthPayload,
) -> Result<ClientCredentials, AuthError> {
    if payload.client_id@.len() == 0 || payload.client_secret@.len() == 0 {
        Err(AuthError::ClientIDOrSecret)
    } else {
        match lookup_spec(m, payload.user_id@) {
            Some(c) => if credentials_match(c, payload.client_id@, payload.client_secret@) {
                Ok(c)
            } else {
                Err(AuthError::ClientIDOrSecret)
            },
            None => Err(AuthError::ClientIDOrSecret),
        }
    }
}

/// Validates a presented triple against the store.
pub fn check_credentials(payload: &AuthPayload, store: &CredentialStore) -> (r: Result<
    ClientCredentials,
    AuthError,
>)
    ensures
        r == check_credentials_spec(store@, *payload),
{
    if payload.client_id.as_str().unicode_len() == 0 || payload.client_secret.as_str().unicode_len()
        == 0 {
        return Err(AuthError::ClientIDOrSecret);
    }
    match parse_user_id(payload.user_id.as_str()) {
        None => Err(AuthError::ClientIDOrSecret),
        Some(id) => match store.get(id) {
            None => Err(AuthError::ClientIDOrSecret),
            Some(c) => {
                if c.client_id == payload.client_id && c.client_secret == payload.client_secret {
                    Ok(c.clone())
                } else {
                    Err(AuthError::ClientIDOrSecret)
                }
            },
        },
    }
}

/// The authorize endpoint's credential phase: reads the three header
/// values, refusing a missing client id or secret as an invalid pair and a
/// missing or empty user id on its own account, then checks the triple
/// against the store. The record that comes back names the account whose
/// profile the token is minted from.
pub fn authorize(
    client_id: Option<String>,
    client_secret: Option<String>,
    user_id: Option<String>,
    store: &CredentialStore,
) -> (r: Result<ClientCredentials, AuthError>)
    ensures
        client_id is None ==> r == Err::<ClientCredentials, AuthError>(AuthError::ClientIDOrSecret),
        client_id is Some && client_secret is None ==> r == Err::<ClientCredentials, AuthError>(
            AuthError::ClientIDOrSecret,
        ),
        client_id is Some && client_secret is Some && user_id is None ==> r == Err::<
            ClientCredentials,
            AuthError,
        >(AuthError::MissingUserID),
        (match (client_id, client_secret, user_id) {
            (Some(ci), Some(cs), Some(ui)) => if ui@.len() == 0 {
                r == Err::<ClientCredentials, AuthError>(AuthError::MissingUserID)
            } else {
                r == check_credentials_spec(
                    store@,
                    (AuthPayload { client_id: ci, client_secret: cs, user_id: ui }),
                )
            },
            _ => true,
        }),
{
    let client_id = match client_id {
        Some(ci) => ci,
        None => {
            return Err(AuthError::ClientIDOrSecret);
        },
    };
    let client_secret = match client_secret {
        Some(cs) => cs,
        None => {
            return Err(AuthError::ClientIDOrSecret);
        },
    };
    let user_id = match user_id {
        Some(ui) => ui,
        None => {
            return Err(AuthError::MissingUserID);
        },
    };
    if user_id.as_str().unicode_len() == 0 {
        return Err(AuthError::MissingUserID);
    }
    let payload = AuthPayload { client_id, client_secret, user_id };
    check_credentials(&payload, store)
}

/// Law: a known user id with a wrong secret and an unknown user id are
/// answered identically — same error, same message, same status — so the
/// answer does not disclose which field mismatched.
pub proof fn lemma_no_field_leakage(
    m: Map<u64, ClientCredentials>,
    known: AuthPayload,
    unknown: AuthPayload,
)
    requires
        known.client_id@.len() > 0,
        known.client_secret@.len() > 0,
        unknown.client_id@.len() > 0,
        unknown.client_secret@.len() > 0,
        lookup_spec(m, known.user_id@) matches Some(c) && !credentials_match(
            c,
            known.client_id@,
            known.client_secret@,
        ),
        lookup_spec(m, unknown.user_id@) is None,
    ensures
        check_credentials_spec(m, known) == check_credentials_spec(m, unknown),
        check_credentials_spec(m, known) == Err::<ClientCredentials, AuthError>(
            AuthError::ClientIDOrSecret,
        ),
        check_credentials_spec(m, known) matches Err(e1) && check_credentials_spec(m, unknown) matches Err(
            e2,
        ) && e1.message_spec() == e2.message_spec() && e1.status_spec() == e2.status_spec(),
{
}

} // verus!
