//! Session cookies: an assertion signed with the service-account key is traded for an OAuth2
//! access token, which then asks the identity service for a cookie.

use crate::compact::{header_key_id, now_timestamp};
use crate::credentials::Credentials;
use crate::errors::FirebaseError;
use crate::jwt::{built_claims, create_jwt_at, encode_jwt, token_carries, valid_timestamp, views, AuthClaimsJwt};
use vstd::prelude::*;

verus! {

pub const GOOGLE_OAUTH2_URL: &'static str = "https://accounts.google.com/o/oauth2/token";

/// Shortest cookie lifetime the identity service accepts, in seconds.
pub const MIN_COOKIE_SECONDS: i64 = 300;

/// Longest cookie lifetime the identity service accepts, in seconds.
pub const MAX_COOKIE_SECONDS: i64 = 1209600;

/// The scopes the assertion asks for.
pub open spec fn assertion_scopes() -> Seq<Seq<char>> {
    seq![
        "https://www.googleapis.com/auth/cloud-platform"@,
        "https://www.googleapis.com/auth/firebase.database"@,
        "https://www.googleapis.com/auth/firebase.messaging"@,
        "https://www.googleapis.com/auth/identitytoolkit"@,
        "https://www.googleapis.com/auth/userinfo.email"@,
    ]
}

/// The session-cookie endpoint of a project.
pub fn identitytoolkit_url(project_id: &str) -> (r: String)
    ensures
        r@ == "https://identitytoolkit.googleapis.com/v1/projects/"@ + project_id@ + ":createSessionCookie"@,
{
    let mut r = String::from_str("https://identitytoolkit.googleapis.com/v1/projects/");
    r.append(project_id);
    r.append(":createSessionCookie");
    r
}

/// The unsigned assertion issued at `now`: valid for `duration_secs`, addressed to the
/// OAuth2 token endpoint, asking for the scopes above.
pub fn assertion_claims_at(credentials: &Credentials, duration_secs: i64, now: i64) -> (r: Result<
    AuthClaimsJwt,
    FirebaseError,
>)
    ensures
        r is Ok <==> valid_timestamp(now as int) && valid_timestamp(now + duration_secs),
        r matches Err(e) ==> e is TimestampRange,
        r matches Ok(j) ==> j.wf() && built_claims(j, *credentials, Some(assertion_scopes()), duration_secs as int,
            None, None, GOOGLE_OAUTH2_URL@, now as int),
{
    let mut scopes: Vec<String> = Vec::new();
    scopes.push(String::from_str("https://www.googleapis.com/auth/cloud-platform"));
    scopes.push(String::from_str("https://www.googleapis.com/auth/firebase.database"));
    scopes.push(String::from_str("https://www.googleapis.com/auth/firebase.messaging"));
    scopes.push(String::from_str("https://www.googleapis.com/auth/identitytoolkit"));
    scopes.push(String::from_str("https://www.googleapis.com/auth/userinfo.email"));
    assert(views(scopes@) =~= assertion_scopes());
    create_jwt_at(credentials, Some(&scopes), duration_secs, None, None, GOOGLE_OAUTH2_URL, now)
}

/// The signed assertion traded for an OAuth2 access token, issued now.
pub fn create_jwt_encoded(credentials: &Credentials, duration_secs: i64) -> (r: Result<String, FirebaseError>)
    ensures
        !credentials.has_signing_key() <==> (r matches Err(e) && e is Configuration),
        r matches Err(e) ==> e is TimestampRange || e is Configuration || e is Signing || e is Clock,
        r matches Ok(t) ==> exists|j: AuthClaimsJwt, now: int|
            {
                &&& built_claims(j, *credentials, Some(assertion_scopes()), duration_secs as int, None, None,
                    GOOGLE_OAUTH2_URL@, now)
                &&& token_carries(t@, j.claims)
                &&& header_key_id(t@) == Some(credentials.private_key_id@)
            },
{
    if !credentials.signing_key_present() {
        return Err(FirebaseError::Configuration);
    }
    let now = match now_timestamp() {
        Some(t) => t,
        None => return Err(FirebaseError::Clock),
    };
    let jwt = assertion_claims_at(credentials, duration_secs, now)?;
    encode_jwt(credentials, &jwt)
}

/// The body of the cookie request: the target token and the cookie lifetime in seconds.
pub struct SessionLogin {
    pub id_token: String,
    pub valid_duration: u64,
    pub tenant_id: Option<String>,
}

/// The cookie request for `id_token`, valid for `duration_secs` seconds.
pub fn session_login(id_token: String, duration_secs: i64) -> (r: SessionLogin)
    requires
        MIN_COOKIE_SECONDS <= duration_secs <= MAX_COOKIE_SECONDS,
    ensures
        r.id_token == id_token,
        r.valid_duration == duration_secs,
        r.tenant_id is None,
{
    SessionLogin { id_token, valid_duration: duration_secs as u64, tenant_id: None }
}

/// The cookie request for `id_token`, or `CookieDuration` when the lifetime lies outside
/// five minutes to fourteen days.
pub fn checked_session_login(id_token: String, duration_secs: i64) -> (r: Result<SessionLogin, FirebaseError>)
    ensures
        MIN_COOKIE_SECONDS <= duration_secs <= MAX_COOKIE_SECONDS <==> r is Ok,
        r matches Ok(l) ==> l.id_token == id_token && l.valid_duration == duration_secs && l.tenant_id is None,
        r matches Err(e) ==> e is CookieDuration,
{
    if duration_secs < MIN_COOKIE_SECONDS || duration_secs > MAX_COOKIE_SECONDS {
        return Err(FirebaseError::CookieDuration);
    }
    Ok(session_login(id_token, duration_secs))
}

} // verus!
