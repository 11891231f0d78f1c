use vstd::prelude::*;
use vstd::string::StringExecFns;

verus! {

/// Typed error for the credential and token endpoints. Each variant carries
/// a fixed message and a fixed HTTP status, so a failure never leaks which
/// field was wrong beyond its variant.
#[derive(Clone, Copy, PartialEq, Eq, Structural, Debug)]
pub enum AuthError {
    InvalidToken,
    MissingToken,
    ExpiredToken,
    TokenCreation,
    ClientIDOrSecret,
    MissingUserID,
}

impl AuthError {
    /// The fixed message of each variant.
    pub open spec fn message_spec(self) -> Seq<char> {
        match self {
            AuthError::InvalidToken => "Invalid Token"@,
            AuthError::MissingToken => "Missing Token"@,
            AuthError::ExpiredToken => "Expired Token"@,
            AuthError::TokenCreation => "Token Creation Error"@,
            AuthError::ClientIDOrSecret => "Invalid Client ID or Secret"@,
            AuthError::MissingUserID => "Missing User ID"@,
        }
    }

    /// The fixed HTTP status of each variant.
    pub open spec fn status_spec(self) -> u16 {
        match self {
            AuthError::InvalidToken => 401,
            AuthError::MissingToken => 403,
            AuthError::ExpiredToken => 403,
            AuthError::TokenCreation => 500,
            AuthError::ClientIDOrSecret => 400,
            AuthError::MissingUserID => 400,
        }
    }

    pub fn to_string(&self) -> (r: String)
        ensures
            r@ == self.message_spec(),
    {
        match self {
            AuthError::InvalidToken => String::from_str("Invalid Token"),
            AuthError::MissingToken => String::from_str("Missing Token"),
            AuthError::ExpiredToken => String::from_str("Expired Token"),
            AuthError::TokenCreation => String::from_str("Token Creation Error"),
            AuthError::ClientIDOrSecret => String::from_str("Invalid Client ID or Secret"),
            AuthError::MissingUserID => String::from_str("Missing User ID"),
        }
    }

    pub fn status(&self) -> (r: u16)
        ensures
            r == self.status_spec(),
    {
        match self {
            AuthError::InvalidToken => 401,
            AuthError::MissingToken => 403,
            AuthError::ExpiredToken => 403,
            AuthError::TokenCreation => 500,
            AuthError::ClientIDOrSecret => 400,
            AuthError::MissingUserID => 400,
        }
    }
}

} // verus!
