//! The service-account session: its tokens are signed locally with the account's key.

use crate::compact::now_timestamp;
use crate::credentials::Credentials;
use crate::errors::FirebaseError;
use crate::compact::header_key_id;
use crate::jwt::{
    built_claims, create_jwt_at, encode_jwt, jwt_update_expiry_if_at, stale, token_carries, valid_timestamp,
    with_issued_at, AuthClaimsJwt, JWT_AUDIENCE_FIRESTORE, MAX_TIMESTAMP,
};
use vstd::prelude::*;

verus! {

/// Minutes after which the session signs its token again.
pub const REISSUE_AFTER_MINUTES: i64 = 50;

/// Seconds for which a session token is valid when first signed.
pub const SESSION_TOKEN_SECONDS: i64 = 3600;

/// A service-account session: the credentials, the unsigned claim set and the token last
/// signed from it.
pub struct BlockingSession {
    pub credentials: Credentials,
    jwt: AuthClaimsJwt,
    access_token_: String,
}

/// The same session, for callers that await; it performs no network call either.
pub type AsyncSession = BlockingSession;

impl BlockingSession {
    pub closed spec fn wf(&self) -> bool {
        self.jwt.wf()
    }

    /// The credentials the session signs with.
    pub closed spec fn creds(&self) -> Credentials {
        self.credentials
    }

    /// The current encoded token.
    pub closed spec fn token(&self) -> Seq<char> {
        self.access_token_@
    }

    /// The unsigned claim set the token is signed from.
    pub closed spec fn claims(&self) -> AuthClaimsJwt {
        self.jwt
    }

    /// The token is the claim set, signed: its claims part reads back as the claim set and its
    /// header names the key id.
    pub open spec fn signed_from(token: Seq<char>, jwt: AuthClaimsJwt) -> bool {
        token_carries(token, jwt.claims) && header_key_id(token) == Some(jwt.key_id@)
    }

    /// Builds the claim set at `now` (valid for an hour, audience the document database)
    /// and signs it.
    pub fn new_at(credentials: Credentials, now: i64) -> (r: Result<BlockingSession, FirebaseError>)
        ensures
            r matches Ok(s) ==> {
                &&& s.wf()
                &&& s.creds() == credentials
                &&& built_claims(s.claims(), credentials, None, SESSION_TOKEN_SECONDS as int, None, None,
                    JWT_AUDIENCE_FIRESTORE@, now as int)
                &&& BlockingSession::signed_from(s.token(), s.claims())
            },
            valid_timestamp(now as int) && valid_timestamp(now + SESSION_TOKEN_SECONDS) && credentials.has_signing_key()
                ==> (r is Ok || (r matches Err(e) && e is Signing)),
            r is Ok ==> credentials.has_signing_key(),
            credentials.has_signing_key() ==> !(r matches Err(e) && e is Configuration),
            r matches Err(e) ==> e is TimestampRange || e is Configuration || e is Signing,
            valid_timestamp(now as int) && valid_timestamp(now + SESSION_TOKEN_SECONDS)
                && !credentials.has_signing_key() ==> (r matches Err(e) && e is Configuration),
    {
        let jwt = create_jwt_at(&credentials, None, SESSION_TOKEN_SECONDS, None, None, JWT_AUDIENCE_FIRESTORE, now)?;
        let encoded = encode_jwt(&credentials, &jwt)?;
        Ok(BlockingSession { credentials, jwt, access_token_: encoded })
    }

    /// As `new_at`, at the current time.
    pub fn new(credentials: Credentials) -> (r: Result<BlockingSession, FirebaseError>)
        ensures
            r matches Ok(s) ==> s.wf() && s.creds() == credentials && BlockingSession::signed_from(s.token(), s.claims())
                && exists|now: int|
                built_claims(s.claims(), credentials, None, SESSION_TOKEN_SECONDS as int, None, None,
                    JWT_AUDIENCE_FIRESTORE@, now),
            r is Ok ==> credentials.has_signing_key(),
            !credentials.has_signing_key() ==> r is Err,
            credentials.has_signing_key() ==> (r is Ok || (r matches Err(e) && (e is Signing || e is Clock || e is TimestampRange))),
    {
        let now = match now_timestamp() {
            Some(t) => t,
            None => return Err(FirebaseError::Clock),
        };
        BlockingSession::new_at(credentials, now)
    }

    pub fn project_id(&self) -> (r: &str)
        ensures
            r@ == self.creds().project_id@,
    {
        self.credentials.project_id.as_str()
    }

    /// The token at `now`. When the claim set was issued more than 50 whole minutes ago, its
    /// issue time moves to `now` and it is signed again; should signing fail, the previous
    /// token is kept and returned.
    pub fn access_token_at(&mut self, now: i64) -> (r: String)
        requires
            old(self).wf(),
            valid_timestamp(now as int),
        ensures
            final(self).wf(),
            final(self).creds() == old(self).creds(),
            r@ == final(self).token(),
            !stale(old(self).claims().claims.registered.issued_at, now as int, REISSUE_AFTER_MINUTES as int) ==> {
                &&& final(self).claims() == old(self).claims()
                &&& final(self).token() == old(self).token()
            },
            stale(old(self).claims().claims.registered.issued_at, now as int, REISSUE_AFTER_MINUTES as int)
                ==> final(self).claims() == with_issued_at(old(self).claims(), now),
            stale(old(self).claims().claims.registered.issued_at, now as int, REISSUE_AFTER_MINUTES as int)
                && final(self).token() != old(self).token() ==> BlockingSession::signed_from(final(self).token(),
                final(self).claims()),
            !old(self).creds().has_signing_key() ==> final(self).token() == old(self).token(),
    {
        if jwt_update_expiry_if_at(&mut self.jwt, REISSUE_AFTER_MINUTES, now) {
            if let Ok(encoded) = encode_jwt(&self.credentials, &self.jwt) {
                self.access_token_ = encoded;
            }
        }
        self.access_token_.clone()
    }

    /// As `access_token_at`, at the current time; when the clock cannot be read the token is
    /// returned unchanged.
    pub fn access_token(&mut self) -> (r: String)
        requires
            old(self).wf(),
        ensures
            final(self).wf(),
            final(self).creds() == old(self).creds(),
            r@ == final(self).token(),
            !old(self).creds().has_signing_key() ==> final(self).token() == old(self).token(),
            final(self).token() != old(self).token() ==> BlockingSession::signed_from(final(self).token(),
                final(self).claims()),
            final(self).claims() == old(self).claims() || exists|now: i64|
                {
                    &&& 0 <= now <= MAX_TIMESTAMP
                    &&& stale(old(self).claims().claims.registered.issued_at, now as int, REISSUE_AFTER_MINUTES as int)
                    &&& final(self).claims() == with_issued_at(old(self).claims(), now)
                },
    {
        match now_timestamp() {
            Some(now) => self.access_token_at(now),
            None => self.access_token_.clone(),
        }
    }

    /// The token last signed, without a freshness check.
    pub fn access_token_unchecked(&self) -> (r: String)
        ensures
            r@ == self.token(),
    {
        self.access_token_.clone()
    }
}

} // verus!
