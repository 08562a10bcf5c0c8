//! The impersonated user session: its tokens come from the identity service, by refresh
//! token or by a custom token this crate signs for the user.
//!
//! Network calls are not made here. Construction and `access_token` are written as steps:
//! each step either finishes or names the exchange to perform, and the caller hands the
//! exchange's outcome to the next step.

use crate::compact::{header_key_id, now_timestamp};
use crate::credentials::Credentials;
use crate::errors::FirebaseError;
use crate::jwt::{
    built_claims, claims_failure, create_jwt_encoded, expired, first_audience, is_expired_at, token_carries,
    token_verifies, unverified_token_claims, validation_result, verify_access_token_at, AuthClaimsJwt, ClaimSet,
    JWT_AUDIENCE_IDENTITY, MAX_TIMESTAMP,
};
use vstd::prelude::*;

verus! {

/// Seconds for which a custom token is valid.
pub const CUSTOM_TOKEN_SECONDS: i64 = 3600;

/// The custom-token exchange endpoint for a project's API key.
pub fn token_endpoint(v: &str) -> (r: String)
    ensures
        r@ == "https://www.googleapis.com/identitytoolkit/v3/relyingparty/verifyCustomToken?key="@ + v@,
{
    let mut r = String::from_str("https://www.googleapis.com/identitytoolkit/v3/relyingparty/verifyCustomToken?key=");
    r.append(v);
    r
}

/// The refresh exchange endpoint for a project's API key.
pub fn refresh_to_access_endpoint(v: &str) -> (r: String)
    ensures
        r@ == "https://securetoken.googleapis.com/v1/token?key="@ + v@,
{
    let mut r = String::from_str("https://securetoken.googleapis.com/v1/token?key=");
    r.append(v);
    r
}

/// The endpoint that signs a user in with an OAuth2 provider's token.
pub fn sign_in_with_idp_endpoint(api_key: &str) -> (r: String)
    ensures
        r@ == "https://identitytoolkit.googleapis.com/v1/accounts:signInWithIdp?key="@ + api_key@,
{
    let mut r = String::from_str("https://identitytoolkit.googleapis.com/v1/accounts:signInWithIdp?key=");
    r.append(api_key);
    r
}

/// OAuth2 providers the identity service supports by default.
#[derive(Debug, Clone, Copy, PartialEq, Eq, Structural)]
pub enum OAuth2Provider {
    Apple,
    AppleGameCenter,
    Facebook,
    GitHub,
    Google,
    GooglePlayGames,
    LinkedIn,
    Microsoft,
    Twitter,
    Yahoo,
}

pub open spec fn provider_id(provider: OAuth2Provider) -> Seq<char> {
    match provider {
        OAuth2Provider::Apple => "apple.com"@,
        OAuth2Provider::AppleGameCenter => "gc.apple.com"@,
        OAuth2Provider::Facebook => "facebook.com"@,
        OAuth2Provider::GitHub => "github.com"@,
        OAuth2Provider::Google => "google.com"@,
        OAuth2Provider::GooglePlayGames => "playgames.google.com"@,
        OAuth2Provider::LinkedIn => "linkedin.com"@,
        OAuth2Provider::Microsoft => "microsoft.com"@,
        OAuth2Provider::Twitter => "twitter.com"@,
        OAuth2Provider::Yahoo => "yahoo.com"@,
    }
}

/// The provider id the identity service knows a provider by.
pub fn get_provider(provider: OAuth2Provider) -> (r: String)
    ensures
        r@ == provider_id(provider),
{
    match provider {
        OAuth2Provider::Apple => String::from_str("apple.com"),
        OAuth2Provider::AppleGameCenter => String::from_str("gc.apple.com"),
        OAuth2Provider::Facebook => String::from_str("facebook.com"),
        OAuth2Provider::GitHub => String::from_str("github.com"),
        OAuth2Provider::Google => String::from_str("google.com"),
        OAuth2Provider::GooglePlayGames => String::from_str("playgames.google.com"),
        OAuth2Provider::LinkedIn => String::from_str("linkedin.com"),
        OAuth2Provider::Microsoft => String::from_str("microsoft.com"),
        OAuth2Provider::Twitter => String::from_str("twitter.com"),
        OAuth2Provider::Yahoo => String::from_str("yahoo.com"),
    }
}

/// The form body that signs a user in with a provider's access token.
pub fn sign_in_with_idp_post_body(access_token: &str, provider: OAuth2Provider) -> (r: String)
    ensures
        r@ == "access_token="@ + access_token@ + "&providerId="@ + provider_id(provider),
{
    let mut r = String::from_str("access_token=");
    r.append(access_token);
    r.append("&providerId=");
    let p = get_provider(provider);
    r.append(p.as_str());
    r
}

/// The custom-token exchange request.
#[derive(Debug)]
pub struct CustomJwtToFirebaseID {
    pub token: String,
    pub return_secure_token: bool,
}

impl CustomJwtToFirebaseID {
    pub fn new(token: String, with_refresh_token: bool) -> (r: Self)
        ensures
            r.token == token,
            r.return_secure_token == with_refresh_token,
    {
        CustomJwtToFirebaseID { token, return_secure_token: with_refresh_token }
    }
}

/// The custom-token exchange response.
#[derive(Debug)]
pub struct CustomJwtToFirebaseIDResponse {
    pub kind: Option<String>,
    pub id_token: String,
    pub refresh_token: Option<String>,
    pub expires_in: Option<String>,
}

/// The refresh exchange response.
#[derive(Debug)]
pub struct RefreshTokenToAccessTokenResponse {
    pub expires_in: String,
    pub token_type: String,
    pub refresh_token: String,
    pub id_token: String,
    pub user_id: String,
    pub project_id: String,
}

/// An impersonated session.
pub struct BlockingSession {
    /// The user id.
    pub user_id: String,
    /// The refresh token, if any: it trades for a new access token once the current one expires.
    pub refresh_token: Option<String>,
    /// The project's API key.
    pub api_key: String,
    access_token_: String,
    project_id_: String,
}

/// The same session, for callers that await the exchanges.
pub type AsyncSession = BlockingSession;

/// The next step of building an impersonated session.
pub enum Bootstrap {
    /// The session is built.
    Done(BlockingSession),
    /// Trade `refresh_token` at the refresh endpoint, then call `after_refresh`.
    ExchangeRefreshToken { api_key: String, refresh_token: String },
    /// Post `request` to the custom-token endpoint, then call `after_custom_token`.
    ExchangeCustomToken { api_key: String, user_id: String, request: CustomJwtToFirebaseID },
    /// No source led to a session.
    Failed(FirebaseError),
}

/// The next step of handing out an impersonated session's token.
pub enum AccessTokenStep {
    /// The cached token is still valid.
    Ready(String),
    /// The cached token has expired: trade `refresh_token`, then call `finish_refresh`.
    Refresh { api_key: String, refresh_token: String },
    /// The cached token has expired and there is no refresh token: not authenticated.
    Unavailable,
}

pub open spec fn opt_str_to_string(s: Option<&str>, t: Option<String>) -> bool {
    match s {
        Some(v) => t matches Some(w) && w@ == v@,
        None => t is None,
    }
}

/// `token` is a custom token for `user_id`: signed under the credentials' key id, issued by
/// the account, addressed to the identity service, valid for an hour, carrying the user id.
pub open spec fn custom_token_for(credentials: Credentials, user_id: Seq<char>, token: Seq<char>) -> bool {
    exists|j: AuthClaimsJwt, now: int, u: String|
        {
            &&& u@ == user_id
            &&& built_claims(j, credentials, None, CUSTOM_TOKEN_SECONDS as int, None, Some(u), JWT_AUDIENCE_IDENTITY@, now)
            &&& token_carries(token, j.claims)
            &&& header_key_id(token) == Some(credentials.private_key_id@)
        }
}

/// What the user-id source yields: a failure when no user id is given or no token can be
/// signed for it, else a custom-token exchange for that user.
pub open spec fn user_id_step(credentials: Credentials, user_id: Option<&str>, r: Bootstrap) -> bool {
    &&& user_id is None ==> (r matches Bootstrap::Failed(e) && e is NoCredentialSource)
    &&& user_id is Some && !credentials.has_signing_key() ==> (r matches Bootstrap::Failed(e) && e is NoCredentialSource)
    &&& !(r is Done)
    &&& !(r is ExchangeRefreshToken)
    &&& r matches Bootstrap::Failed(e) ==> e is NoCredentialSource
    &&& r matches Bootstrap::ExchangeCustomToken { api_key, user_id: u, request } ==> {
        &&& user_id matches Some(v) && u@ == v@
        &&& api_key == credentials.api_key
        &&& request.return_secure_token
        &&& custom_token_for(credentials, u@, request.token@)
    }
}

/// The token's claims read and it has not expired at `now`.
pub open spec fn token_fresh(token: Seq<char>, now: int) -> bool {
    exists|c: ClaimSet| token_carries(token, c) && !expired(c.registered.expiry, now, 0)
}

/// What the sources after the access token yield: the refresh exchange when a refresh
/// token is given, else the user-id source.
pub open spec fn after_token_step(
    credentials: Credentials,
    user_id: Option<&str>,
    refresh_token: Option<&str>,
    r: Bootstrap,
) -> bool {
    &&& refresh_token matches Some(t) ==> (r matches Bootstrap::ExchangeRefreshToken { api_key, refresh_token: rt }
        && api_key == credentials.api_key && rt@ == t@)
    &&& refresh_token is None ==> user_id_step(credentials, user_id, r)
}

impl BlockingSession {
    /// The current access token.
    pub closed spec fn token(&self) -> Seq<char> {
        self.access_token_@
    }

    /// The user id.
    pub closed spec fn user(&self) -> String {
        self.user_id
    }

    /// The refresh token.
    pub closed spec fn refresh(&self) -> Option<String> {
        self.refresh_token
    }

    /// The API key.
    pub closed spec fn key(&self) -> String {
        self.api_key
    }

    /// The project id.
    pub closed spec fn project(&self) -> Seq<char> {
        self.project_id_@
    }

    pub fn project_id(&self) -> (r: &str)
        ensures
            r@ == self.project(),
    {
        self.project_id_.as_str()
    }

    /// The cached token, without a freshness check.
    pub fn access_token_unchecked(&self) -> (r: String)
        ensures
            r@ == self.token(),
    {
        self.access_token_.clone()
    }

    /// A session around an access token that verifies at `now`: the user is the token's
    /// subject, the project its audience. No network call is made; such a session has no
    /// refresh token.
    pub fn by_access_token_at(credentials: &Credentials, access_token: &str, now: i64) -> (r: Result<
        BlockingSession,
        FirebaseError,
    >)
        ensures
            r is Ok <==> token_verifies(*credentials, access_token@, now as int),
            r matches Ok(s) ==> {
                &&& s.token() == access_token@
                &&& s.refresh() is None
                &&& s.key() == credentials.api_key
                &&& exists|c: ClaimSet|
                    {
                        &&& token_carries(access_token@, c)
                        &&& claims_failure(c.registered, now as int) is None
                        &&& s.user() == c.registered.subject->0
                        &&& s.project() == first_audience(c.registered.audience)@
                    }
            },
    {
        let result = verify_access_token_at(credentials, access_token, now)?;
        let ghost v = result;
        let s = BlockingSession {
            user_id: result.subject,
            project_id_: result.audience,
            access_token_: access_token.to_owned(),
            refresh_token: None,
            api_key: credentials.api_key.clone(),
        };
        proof {
            let c = choose|c: ClaimSet|
                token_carries(access_token@, c) && claims_failure(c.registered, now as int) is None && v
                    == validation_result(c);
            assert(s.user() == c.registered.subject->0);
        }
        Ok(s)
    }

    /// As `by_access_token_at`, at the current time; fails when the clock cannot be read.
    pub fn by_access_token(credentials: &Credentials, access_token: &str) -> (r: Result<BlockingSession, FirebaseError>)
        ensures
            r matches Ok(s) ==> {
                &&& s.token() == access_token@
                &&& s.refresh() is None
                &&& s.key() == credentials.api_key
                &&& exists|now: int| token_verifies(*credentials, access_token@, now)
            },
    {
        let now = match now_timestamp() {
            Some(t) => t,
            None => return Err(FirebaseError::Clock),
        };
        BlockingSession::by_access_token_at(credentials, access_token, now)
    }

    /// The session a refresh exchange answered with.
    pub fn by_refresh_response(credentials: &Credentials, r: RefreshTokenToAccessTokenResponse) -> (s: BlockingSession)
        ensures
            s.user() == r.user_id,
            s.token() == r.id_token@,
            s.refresh() == Some(r.refresh_token),
            s.project() == credentials.project_id@,
            s.key() == credentials.api_key,
    {
        BlockingSession {
            user_id: r.user_id,
            access_token_: r.id_token,
            refresh_token: Some(r.refresh_token),
            project_id_: credentials.project_id.clone(),
            api_key: credentials.api_key.clone(),
        }
    }

    /// The custom-token exchange request for `user_id`: a token valid for an hour, addressed
    /// to the identity service, carrying the user id, signed with the credentials' key.
    pub fn custom_token_request(credentials: &Credentials, user_id: &str, with_refresh_token: bool) -> (r: Result<
        CustomJwtToFirebaseID,
        FirebaseError,
    >)
        ensures
            !credentials.has_signing_key() <==> (r matches Err(e) && e is Configuration),
            r matches Err(e) ==> e is TimestampRange || e is Configuration || e is Signing || e is Clock,
            r matches Ok(q) ==> q.return_secure_token == with_refresh_token && custom_token_for(*credentials, user_id@, q.token@),
    {
        let uid = user_id.to_owned();
        let ghost u = uid;
        let encoded = create_jwt_encoded(credentials, None, CUSTOM_TOKEN_SECONDS, None, Some(uid), JWT_AUDIENCE_IDENTITY)?;
        Ok(CustomJwtToFirebaseID::new(encoded, with_refresh_token))
    }

    /// The session a custom-token exchange for `user_id` answered with.
    pub fn by_custom_token_response(credentials: &Credentials, user_id: &str, r: CustomJwtToFirebaseIDResponse) -> (s: BlockingSession)
        ensures
            s.user()@ == user_id@,
            s.token() == r.id_token@,
            s.refresh() == r.refresh_token,
            s.project() == credentials.project_id@,
            s.key() == credentials.api_key,
    {
        BlockingSession {
            user_id: user_id.to_owned(),
            access_token_: r.id_token,
            refresh_token: r.refresh_token,
            project_id_: credentials.project_id.clone(),
            api_key: credentials.api_key.clone(),
        }
    }

    /// The last source: a custom token for the user id, if one was given and can be signed.
    pub fn from_user_id(credentials: &Credentials, user_id: Option<&str>) -> (r: Bootstrap)
        ensures
            user_id_step(*credentials, user_id, r),
    {
        match user_id {
            Some(u) => {
                let request = BlockingSession::custom_token_request(credentials, u, true);
                BlockingSession::after_custom_token_request(credentials, u, request)
            },
            None => Bootstrap::Failed(FirebaseError::NoCredentialSource),
        }
    }

    /// Takes the outcome of signing the custom token for `user_id`: the exchange of that
    /// request, or no source left when signing failed.
    pub fn after_custom_token_request(
        credentials: &Credentials,
        user_id: &str,
        request: Result<CustomJwtToFirebaseID, FirebaseError>,
    ) -> (r: Bootstrap)
        ensures
            match request {
                Ok(q) => r matches Bootstrap::ExchangeCustomToken { api_key, user_id: u, request: rq } && api_key
                    == credentials.api_key && u@ == user_id@ && rq == q,
                Err(_) => r matches Bootstrap::Failed(e) && e is NoCredentialSource,
            },
    {
        match request {
            Ok(q) => Bootstrap::ExchangeCustomToken {
                api_key: credentials.api_key.clone(),
                user_id: user_id.to_owned(),
                request: q,
            },
            Err(_) => Bootstrap::Failed(FirebaseError::NoCredentialSource),
        }
    }

    /// The sources after the access token, in order: the refresh token, then the user id.
    pub fn after_access_token(credentials: &Credentials, user_id: Option<&str>, refresh_token: Option<&str>) -> (r: Bootstrap)
        ensures
            after_token_step(*credentials, user_id, refresh_token, r),
    {
        match refresh_token {
            Some(t) => Bootstrap::ExchangeRefreshToken { api_key: credentials.api_key.clone(), refresh_token: t.to_owned() },
            None => BlockingSession::from_user_id(credentials, user_id),
        }
    }

    /// Starts building a session at `now`. The sources are tried in order, stopping at the
    /// first that works: an access token that verifies (kept with the given refresh token),
    /// then the refresh token, then a custom token for the user id.
    pub fn start_new_at(
        credentials: &Credentials,
        user_id: Option<&str>,
        firebase_tokenid: Option<&str>,
        refresh_token: Option<&str>,
        now: i64,
    ) -> (r: Bootstrap)
        ensures
            (firebase_tokenid matches Some(t) && token_verifies(*credentials, t@, now as int)) <==> r is Done,
            r matches Bootstrap::Done(s) ==> {
                &&& firebase_tokenid matches Some(t) && s.token() == t@
                &&& opt_str_to_string(refresh_token, s.refresh())
                &&& s.key() == credentials.api_key
                &&& exists|c: ClaimSet|
                    {
                        &&& token_carries(s.token(), c)
                        &&& claims_failure(c.registered, now as int) is None
                        &&& s.user() == c.registered.subject->0
                        &&& s.project() == first_audience(c.registered.audience)@
                    }
            },
            !(r is Done) ==> after_token_step(*credentials, user_id, refresh_token, r),
    {
        if let Some(t) = firebase_tokenid {
            if let Ok(mut s) = BlockingSession::by_access_token_at(credentials, t, now) {
                s.refresh_token = match refresh_token {
                    Some(v) => Some(v.to_owned()),
                    None => None,
                };
                return Bootstrap::Done(s);
            }
        }
        BlockingSession::after_access_token(credentials, user_id, refresh_token)
    }

    /// As `start_new_at`, at the current time. When the clock cannot be read the access token
    /// is not adopted and the other sources are tried.
    pub fn start_new(
        credentials: &Credentials,
        user_id: Option<&str>,
        firebase_tokenid: Option<&str>,
        refresh_token: Option<&str>,
    ) -> (r: Bootstrap)
        ensures
            r matches Bootstrap::Done(s) ==> {
                &&& firebase_tokenid matches Some(t) && s.token() == t@
                &&& exists|now: int| 0 <= now <= MAX_TIMESTAMP && token_verifies(*credentials, s.token(), now)
                &&& opt_str_to_string(refresh_token, s.refresh())
                &&& s.key() == credentials.api_key
            },
            !(r is Done) ==> after_token_step(*credentials, user_id, refresh_token, r),
    {
        match now_timestamp() {
            Some(now) => BlockingSession::start_new_at(credentials, user_id, firebase_tokenid, refresh_token, now),
            None => BlockingSession::after_access_token(credentials, user_id, refresh_token),
        }
    }

    /// Takes the outcome of the refresh exchange: a session from its answer, else on to the
    /// user id.
    pub fn after_refresh(
        credentials: &Credentials,
        user_id: Option<&str>,
        outcome: Result<RefreshTokenToAccessTokenResponse, FirebaseError>,
    ) -> (r: Bootstrap)
        ensures
            outcome matches Ok(resp) ==> (r matches Bootstrap::Done(s) && {
                &&& s.user() == resp.user_id
                &&& s.token() == resp.id_token@
                &&& s.refresh() == Some(resp.refresh_token)
                &&& s.project() == credentials.project_id@
                &&& s.key() == credentials.api_key
            }),
            outcome is Err ==> user_id_step(*credentials, user_id, r),
    {
        match outcome {
            Ok(resp) => Bootstrap::Done(BlockingSession::by_refresh_response(credentials, resp)),
            Err(_) => BlockingSession::from_user_id(credentials, user_id),
        }
    }

    /// Takes the outcome of the custom-token exchange for `user_id`: a session from its
    /// answer, else no source is left.
    pub fn after_custom_token(
        credentials: &Credentials,
        user_id: &str,
        outcome: Result<CustomJwtToFirebaseIDResponse, FirebaseError>,
    ) -> (r: Bootstrap)
        ensures
            outcome matches Ok(resp) ==> (r matches Bootstrap::Done(s) && {
                &&& s.user()@ == user_id@
                &&& s.token() == resp.id_token@
                &&& s.refresh() == resp.refresh_token
                &&& s.project() == credentials.project_id@
                &&& s.key() == credentials.api_key
            }),
            outcome is Err ==> (r matches Bootstrap::Failed(e) && e is NoCredentialSource),
    {
        match outcome {
            Ok(resp) => Bootstrap::Done(BlockingSession::by_custom_token_response(credentials, user_id, resp)),
            Err(_) => Bootstrap::Failed(FirebaseError::NoCredentialSource),
        }
    }

    /// What handing out the token takes at `now`: the cached token while it has not expired
    /// (a token whose claims cannot be read counts as expired), else a refresh exchange, or
    /// nothing when there is no refresh token.
    pub fn access_token_step_at(&self, now: i64) -> (r: AccessTokenStep)
        requires
            crate::jwt::valid_timestamp(now as int),
        ensures
            r is Ready <==> token_fresh(self.token(), now as int),
            r matches AccessTokenStep::Ready(t) ==> t@ == self.token(),
            r matches AccessTokenStep::Refresh { api_key, refresh_token } ==> api_key == self.key()
                && self.refresh() == Some(refresh_token),
            !(r is Ready) ==> (r is Refresh <==> self.refresh() is Some),
    {
        let is_expired = match unverified_token_claims(self.access_token_.as_str()) {
            Ok(c) => {
                proof {
                    assert forall|c2: ClaimSet| #[trigger] token_carries(self.token(), c2) implies c2.registered.expiry
                        == c.registered.expiry by {}
                }
                is_expired_at(c.registered.expiry, now, 0)
            },
            Err(_) => true,
        };
        if !is_expired {
            return AccessTokenStep::Ready(self.access_token_.clone());
        }
        match &self.refresh_token {
            Some(t) => AccessTokenStep::Refresh { api_key: self.api_key.clone(), refresh_token: t.clone() },
            None => AccessTokenStep::Unavailable,
        }
    }

    /// As `access_token_step_at`, at the current time. When the clock cannot be read the token
    /// counts as expired.
    pub fn access_token_step(&self) -> (r: AccessTokenStep)
        ensures
            r matches AccessTokenStep::Ready(t) ==> t@ == self.token() && exists|now: int|
                0 <= now <= MAX_TIMESTAMP && token_fresh(self.token(), now),
            r matches AccessTokenStep::Refresh { api_key, refresh_token } ==> api_key == self.key()
                && self.refresh() == Some(refresh_token),
            !(r is Ready) ==> (r is Refresh <==> self.refresh() is Some),
    {
        match now_timestamp() {
            Some(now) => self.access_token_step_at(now),
            None => match &self.refresh_token {
                Some(t) => AccessTokenStep::Refresh { api_key: self.api_key.clone(), refresh_token: t.clone() },
                None => AccessTokenStep::Unavailable,
            },
        }
    }

    /// Takes the outcome of the refresh exchange that `access_token_step` asked for. On
    /// success the access and refresh tokens are both replaced and the new access token is
    /// returned; on failure nothing changes and the empty string is returned, which callers
    /// read as "not authenticated".
    pub fn finish_refresh(&mut self, outcome: Result<RefreshTokenToAccessTokenResponse, FirebaseError>) -> (r: String)
        ensures
            outcome matches Ok(resp) ==> {
                &&& r@ == resp.id_token@
                &&& final(self).token() == resp.id_token@
                &&& final(self).refresh() == Some(resp.refresh_token)
            },
            outcome is Err ==> r@.len() == 0 && final(self).token() == old(self).token() && final(self).refresh()
                == old(self).refresh(),
            final(self).user() == old(self).user(),
            final(self).key() == old(self).key(),
            final(self).project() == old(self).project(),
    {
        match outcome {
            Ok(resp) => {
                let token = resp.id_token.clone();
                self.access_token_ = resp.id_token;
                self.refresh_token = Some(resp.refresh_token);
                token
            },
            Err(_) => String::new(),
        }
    }
}

} // verus!
