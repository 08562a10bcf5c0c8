//! Error types of the token lifecycle.

use vstd::prelude::*;

verus! {

/// Why an inbound token failed verification.
#[derive(Debug, Clone, Copy, PartialEq, Eq, Structural)]
pub enum VerificationFailure {
    /// The signature does not match the key, or the token could not be decoded with it.
    BadSignature,
    /// One of `iat`, `exp`, `iss`, `aud`, `sub` is absent.
    MissingClaims,
    /// The `exp` claim lies in the past.
    Expired,
    /// The `nbf` or `iat` claim lies in the future.
    NotYetValid,
}

/// Every failure this crate reports.
#[derive(Debug)]
pub enum FirebaseError {
    /// No signing key is available to sign a token.
    Configuration,
    /// A timestamp falls outside the range a token can carry.
    TimestampRange,
    /// The signer refused the claim set or the key.
    Signing,
    /// The transport failed before a response arrived.
    Network(String),
    /// An endpoint answered with a non-success status.
    Api { status: u16, body: String },
    /// A token is not a well-formed compact JWT, or a claim has the wrong type.
    TokenFormat,
    /// The token names a key id that the credentials do not know.
    UnknownKey,
    /// The system clock reads before 1970 or beyond the times a token can carry.
    Clock,
    /// The token failed verification.
    Verification(VerificationFailure),
    /// A session cookie was asked for with a lifetime outside five minutes to fourteen days.
    CookieDuration,
    /// A JSON document did not parse; the parser's message.
    Parse(String),
    /// No access token, refresh token or user id led to a session.
    NoCredentialSource,
}

} // verus!
