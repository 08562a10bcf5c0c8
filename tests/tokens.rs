use std::sync::Arc;

use biscuit::jws::Secret;
use firestore_db_and_auth::credentials::{rsa_public_key_from_components, Credentials};
use firestore_db_and_auth::errors::{FirebaseError, VerificationFailure};
use firestore_db_and_auth::jwt::{
    create_jwt_at, create_jwt_encoded, encode_jwt, is_expired, verify_access_token, verify_access_token_at,
    JWT_AUDIENCE_IDENTITY,
};
use firestore_db_and_auth::sessions::service_account;
use firestore_db_and_auth::sessions::session_cookie::{
    assertion_claims_at, checked_session_login, create_jwt_encoded as session_cookie_jwt, identitytoolkit_url, session_login, GOOGLE_OAUTH2_URL,
};
use firestore_db_and_auth::sessions::user::{
    get_provider, refresh_to_access_endpoint, sign_in_with_idp_endpoint, sign_in_with_idp_post_body, token_endpoint,
    AccessTokenStep, BlockingSession, Bootstrap, CustomJwtToFirebaseID, CustomJwtToFirebaseIDResponse, OAuth2Provider,
    RefreshTokenToAccessTokenResponse,
};

const T0: i64 = 1_700_000_000;

const TEST_PRIVATE_KEY_PKCS8: [&str; 26] = [
    "308204bd020100300d06092a864886f70d0101010500048204a7308204a30201000282010100c4463cac75f06ea96540",
    "7ac6e9da40bb39477be72e5c23eb0b7538e2a6e56716fef86a8bb8a82ab63aced3b84ef05f72c3f238589d98a0799350",
    "7f8f39c58a85964489a7b16ed75b3afc15d9b521d1d3099181ecd1ca4e34c3bce34fae253fd169e34342704aa013553e",
    "500fca05aa4e147b35ab2dafb6b56b7122e3a1dc1a69a3f1cfe07371e2426e3aa6eb31c0e53f464c7c3e48b7026a889c",
    "63eb0a098e124e2d60ad42b4e2bfe9f2398e4b0a0e55cad795a303d4567ba12554d62a653b45cefd9d668d8e40278e78",
    "585b91637b52d09efdcbeaccbdd19a0bb7820306c370a812fd0fba38dd371eb8c4d10ac0b1c2208d0ce3c78a24b92762",
    "45887d9e080d02030100010282010020c16d06461f84445a6cbea0bc2dcba04340aa0dac97bd79d03d75ab23b9c4b0da",
    "87e8361db0d901f50207e4ea2da4ec4105c74008bb0c4b05da0913c4cb322135b105fd19b83b12135fb720d0610ec4a6",
    "c3e51839f1c687f943a876e783f968d040587cf9c306807b792d00d99104f9476341936a0a395681120e45c9813359f3",
    "34a43505fb67285a3009d81041c52d3488886c8afab73a8dba575ffb680fe1676c1f12220dc961faaf792c85436d56c6",
    "85050f0f25bc0822943da76f6092d67c3143a4a2f965a891d3ad807091fc271b43854384b71cc9858e3899ffb8764dfe",
    "00425946ccdf7a6c15edff29a724374a02fec76dbfdc897500ad094971528102818100fa9edfa61e6703078876a41c89",
    "6d617fb900b25afb01016fed96bc14c4eaf9d623c85397e67d5598275d601bc84f11ebcf098384b3aa1fb03bce1ea290",
    "879ea070d1e2c76f6d336c88ff43d86798dc98813cd2594ca9fd300109769bf22d2de5466c44987f8446897731c1eca3",
    "7ae2db008eb1851e4a3ef93d4c45082720e58102818100c87cbcf6dd77af33484bfd23fb8e9076da6282e09eb5447b6a",
    "c14896e2987d58317f789816496f6c53bc853b54f77122df757cecd556eeef3d6c997e1bb62dd5641336fcb46ff8f57a",
    "9491a5303adf05c9164f3628ed077a93ca14a7de2d2355b12b08a49c4cd5786bd6cd2039ed7b6116f0bec723de3ee887",
    "7769792e8fa08d02818100df3c74ea7b5a3690973556a934a081a04b221bbc7ea83ea77c722fc630413d9948f63fbfa6",
    "472ddf01f162925cb251bc4206af679cc184c86dfd03bcba109373460b2e7d86fb363b0f2c913a49cd1771a06c94d186",
    "40448e65de1010887f45ca5c184461b1f41900897380d1502d3db4e5a234ede6352c32c62f11ae596c2c010281804715",
    "12da64033f36eb7725b5504767a8fc1cd9525272ea68e79cc7e3d74b4185b766fe96cdb013b550ab1281caca406ea0d3",
    "c30b2548c146497ceb9eeeac54ebc7a3986758822abebe4b56a83ec560b5686a64834b575ec3730abef015b1e3494a9b",
    "7b610199ac4619d5fabc664d70e527810be307309115589259ef0137233102818051cf292de5297423c536dbd810b510",
    "52f86a5c95a9d00ee6b64c79ca12c45c43a67541fd3632eba68e2f9db2be5939eb5e0a9e9296f4c7e2f25fa6aa5776f5",
    "a91809aab00dd0d0df069e2d7c2d1fe341f95d63881215e71a2d9d33468035b3e797a5fb7a3e16e0ee35ba5c67092e68",
    "78385e8469b953b53a110259c8ad55bfd3",
];

const TEST_PUBLIC_KEY: [&str; 6] = [
    "3082010a0282010100c4463cac75f06ea965407ac6e9da40bb39477be72e5c23eb0b7538e2a6e56716fef86a8bb8a82a",
    "b63aced3b84ef05f72c3f238589d98a07993507f8f39c58a85964489a7b16ed75b3afc15d9b521d1d3099181ecd1ca4e",
    "34c3bce34fae253fd169e34342704aa013553e500fca05aa4e147b35ab2dafb6b56b7122e3a1dc1a69a3f1cfe07371e2",
    "426e3aa6eb31c0e53f464c7c3e48b7026a889c63eb0a098e124e2d60ad42b4e2bfe9f2398e4b0a0e55cad795a303d456",
    "7ba12554d62a653b45cefd9d668d8e40278e78585b91637b52d09efdcbeaccbdd19a0bb7820306c370a812fd0fba38dd",
    "371eb8c4d10ac0b1c2208d0ce3c78a24b9276245887d9e080d0203010001",
];

const OTHER_PUBLIC_KEY: [&str; 6] = [
    "3082010a0282010100ebad2cce860a978dc743d3b60ee537cfd7e79755212f7ffb17afa342bbb59497da619057248898",
    "b4491b3c6cf6f741a6ca8c48f970ca4f7d6d44edecc218cdb2b2a27398caca122784e4856ac919b6d74a62f6d08cd369",
    "ed35e7be6f169790506c6cc6b9abb70a9859675e53e7b1d6de99a877968f2809814a6baee4f6faf201ff7cee94a6b0ee",
    "3c929ca02715bc441781c7ad710046ed605e648aa67104bbb54277c3db357b8365b31f297aea9869080dbe60944c1188",
    "c980fc6acd1ea6ea627e950efc3bd42f3010afe80290ad35d5452d48f74d374959a2fc69eb22d0abbf8a3e6884e68755",
    "9c277b95bf7a782df7d92f07c5106cf0fc18c7d933165035110203010001",
];

fn bytes(parts: &[&str]) -> Vec<u8> {
    let hex: String = parts.concat();
    (0..hex.len()).step_by(2).map(|i| u8::from_str_radix(&hex[i..i + 2], 16).unwrap()).collect()
}

fn signing_key() -> Secret {
    let pair = ring::signature::RsaKeyPair::from_pkcs8(&bytes(&TEST_PRIVATE_KEY_PKCS8)).unwrap();
    Secret::RsaKeyPair(Arc::new(pair))
}

fn creds_without_key() -> Credentials {
    Credentials::new(
        "proj".to_string(),
        "key-1".to_string(),
        "svc@proj.iam.example.com".to_string(),
        "api-key".to_string(),
    )
}

fn creds() -> Credentials {
    let mut c = creds_without_key();
    c.add_keypair_key(signing_key());
    c.add_jwks_public_key("key-1".to_string(), bytes(&TEST_PUBLIC_KEY));
    c
}

fn signed_at(c: &Credentials, now: i64, duration: i64, audience: &str) -> String {
    let j = create_jwt_at(c, None, duration, None, Some("user-9".to_string()), audience, now).unwrap();
    encode_jwt(c, &j).unwrap()
}

#[test]
fn signing_needs_a_key() {
    let c = creds_without_key();
    let j = create_jwt_at(&c, None, 60, None, None, "aud", T0).unwrap();
    assert!(matches!(encode_jwt(&c, &j), Err(FirebaseError::Configuration)));
    assert!(matches!(create_jwt_encoded(&c, None, 60, None, None, "aud"), Err(FirebaseError::Configuration)));
}

#[test]
fn sign_then_verify_gives_back_the_claims() {
    let c = creds();
    let scopes = vec!["s1".to_string(), "s2".to_string()];
    let j = create_jwt_at(&c, Some(&scopes), 3600, Some("cid".to_string()), Some("uid".to_string()), "the-aud", T0)
        .unwrap();
    let token = encode_jwt(&c, &j).unwrap();
    assert_eq!(token.split('.').count(), 3);
    let v = verify_access_token_at(&c, &token, T0 + 10).unwrap();
    assert_eq!(v.subject, "svc@proj.iam.example.com");
    assert_eq!(v.audience, "the-aud");
    assert_eq!(v.claims.scope.as_deref(), Some("s1 s2"));
    assert_eq!(v.claims.client_id.as_deref(), Some("cid"));
    assert_eq!(v.claims.uid.as_deref(), Some("uid"));
    assert_eq!(v.get_scopes(), vec!["s1".to_string(), "s2".to_string()]);
}

#[test]
fn verification_rejects_unknown_key_id() {
    let c = creds();
    let token = signed_at(&c, T0, 3600, "aud");
    let mut other = creds_without_key();
    other.add_jwks_public_key("key-2".to_string(), bytes(&TEST_PUBLIC_KEY));
    assert!(matches!(verify_access_token_at(&other, &token, T0 + 10), Err(FirebaseError::UnknownKey)));
}

#[test]
fn verification_rejects_wrong_key() {
    let c = creds();
    let token = signed_at(&c, T0, 3600, "aud");
    let mut other = creds_without_key();
    other.add_jwks_public_key("key-1".to_string(), bytes(&OTHER_PUBLIC_KEY));
    let r = verify_access_token_at(&other, &token, T0 + 10);
    assert!(matches!(r, Err(FirebaseError::Verification(VerificationFailure::BadSignature))));
}

#[test]
fn verification_rejects_missing_claims() {
    let c = creds();
    let mut j = create_jwt_at(&c, None, 3600, None, None, "aud", T0).unwrap();
    j.claims.registered.subject = None;
    let token = encode_jwt(&c, &j).unwrap();
    let r = verify_access_token_at(&c, &token, T0 + 10);
    assert!(matches!(r, Err(FirebaseError::Verification(VerificationFailure::MissingClaims))));
    let mut j = create_jwt_at(&c, None, 3600, None, None, "aud", T0).unwrap();
    j.claims.registered.issued_at = None;
    let token = encode_jwt(&c, &j).unwrap();
    let r = verify_access_token_at(&c, &token, T0 + 10);
    assert!(matches!(r, Err(FirebaseError::Verification(VerificationFailure::MissingClaims))));
}

#[test]
fn verification_rejects_expired_and_malformed_tokens() {
    let c = creds();
    let token = signed_at(&c, T0, 60, "aud");
    let r = verify_access_token_at(&c, &token, T0 + 61);
    assert!(matches!(r, Err(FirebaseError::Verification(VerificationFailure::Expired))));
    assert!(matches!(verify_access_token_at(&c, "not a token", T0), Err(FirebaseError::TokenFormat)));
    assert!(verify_access_token(&c, &token).is_err());
}

#[test]
fn expiry_read_from_token() {
    let c = creds();
    let old = signed_at(&c, T0, 60, "aud");
    assert_eq!(is_expired(&old, 0).unwrap(), true);
    let fresh = create_jwt_encoded(&c, None, 3600, None, None, "aud").unwrap();
    assert_eq!(is_expired(&fresh, 0).unwrap(), false);
    assert!(matches!(is_expired("x.y", 0), Err(FirebaseError::TokenFormat)));
}

#[test]
fn service_session_resigns_after_fifty_minutes() {
    let mut s = service_account::BlockingSession::new_at(creds(), T0).unwrap();
    let first = s.access_token_unchecked();
    assert_eq!(s.project_id(), "proj");
    let at49 = s.access_token_at(T0 + 49 * 60);
    assert_eq!(at49, first);
    let at51 = s.access_token_at(T0 + 51 * 60);
    assert_ne!(at51, first);
    let c = creds();
    let v = verify_access_token_at(&c, &at51, T0 + 51 * 60).unwrap();
    assert_eq!(v.subject, "svc@proj.iam.example.com");
    assert_eq!(s.access_token_at(T0 + 52 * 60), at51);
    assert_eq!(s.access_token_unchecked(), at51);
}

#[test]
fn service_session_needs_a_key() {
    let r = service_account::BlockingSession::new_at(creds_without_key(), T0);
    assert!(matches!(r, Err(FirebaseError::Configuration)));
    let mut s = service_account::BlockingSession::new(creds()).unwrap();
    let t = s.access_token();
    assert_eq!(t, s.access_token_unchecked());
}

#[test]
fn impersonated_session_from_valid_access_token() {
    let c = creds();
    let token = signed_at(&c, T0, 3600, "proj-from-token");
    match BlockingSession::start_new_at(&c, None, Some(&token), None, T0 + 60) {
        Bootstrap::Done(s) => {
            assert_eq!(s.user_id, "svc@proj.iam.example.com");
            assert_eq!(s.project_id(), "proj-from-token");
            assert_eq!(s.access_token_unchecked(), token);
            assert_eq!(s.refresh_token, None);
        },
        _ => panic!("a valid token needs no exchange"),
    }
    match BlockingSession::start_new_at(&c, Some("u"), Some(&token), Some("r1"), T0 + 60) {
        Bootstrap::Done(s) => assert_eq!(s.refresh_token.as_deref(), Some("r1")),
        _ => panic!("a valid token needs no exchange"),
    }
}

#[test]
fn impersonated_session_from_expired_token_and_refresh_token() {
    let c = creds();
    let expired = signed_at(&c, T0, 60, "proj");
    let step = BlockingSession::start_new_at(&c, None, Some(&expired), Some("R1"), T0 + 3600);
    let (api_key, refresh) = match step {
        Bootstrap::ExchangeRefreshToken { api_key, refresh_token } => (api_key, refresh_token),
        _ => panic!("expected one refresh exchange"),
    };
    assert_eq!(api_key, "api-key");
    assert_eq!(refresh, "R1");
    let resp = RefreshTokenToAccessTokenResponse {
        expires_in: "3600".to_string(),
        token_type: "Bearer".to_string(),
        refresh_token: "R2".to_string(),
        id_token: "fresh-token".to_string(),
        user_id: "user-9".to_string(),
        project_id: "proj".to_string(),
    };
    match BlockingSession::after_refresh(&c, None, Ok(resp)) {
        Bootstrap::Done(s) => {
            assert_ne!(s.access_token_unchecked(), expired);
            assert_eq!(s.access_token_unchecked(), "fresh-token");
            assert_eq!(s.refresh_token.as_deref(), Some("R2"));
            assert_eq!(s.user_id, "user-9");
            assert_eq!(s.project_id(), "proj");
        },
        _ => panic!("the refresh answer builds the session"),
    }
}

#[test]
fn impersonated_session_falls_back_to_user_id() {
    let c = creds();
    let step = BlockingSession::after_refresh(&c, Some("user-9"), Err(FirebaseError::Network("down".to_string())));
    let (user_id, request) = match step {
        Bootstrap::ExchangeCustomToken { api_key, user_id, request } => {
            assert_eq!(api_key, "api-key");
            (user_id, request)
        },
        _ => panic!("expected a custom-token exchange"),
    };
    assert_eq!(user_id, "user-9");
    assert!(request.return_secure_token);
    let v = verify_access_token(&c, &request.token).unwrap();
    assert_eq!(v.claims.uid.as_deref(), Some("user-9"));
    let resp = CustomJwtToFirebaseIDResponse {
        kind: None,
        id_token: "id-1".to_string(),
        refresh_token: Some("rt".to_string()),
        expires_in: None,
    };
    match BlockingSession::after_custom_token(&c, &user_id, Ok(resp)) {
        Bootstrap::Done(s) => {
            assert_eq!(s.user_id, "user-9");
            assert_eq!(s.access_token_unchecked(), "id-1");
            assert_eq!(s.refresh_token.as_deref(), Some("rt"));
        },
        _ => panic!("the custom-token answer builds the session"),
    }
    let failed = BlockingSession::after_custom_token(&c, "user-9", Err(FirebaseError::Api { status: 400, body: "x".to_string() }));
    assert!(matches!(failed, Bootstrap::Failed(FirebaseError::NoCredentialSource)));
}

#[test]
fn impersonated_session_without_sources_fails() {
    let c = creds();
    assert!(matches!(
        BlockingSession::start_new_at(&c, None, None, None, T0),
        Bootstrap::Failed(FirebaseError::NoCredentialSource)
    ));
    assert!(matches!(
        BlockingSession::start_new_at(&creds_without_key(), Some("u"), None, None, T0),
        Bootstrap::Failed(FirebaseError::NoCredentialSource)
    ));
    assert!(matches!(
        BlockingSession::start_new_at(&c, None, Some("garbage"), None, T0),
        Bootstrap::Failed(FirebaseError::NoCredentialSource)
    ));
}

fn expired_session(c: &Credentials, refresh: Option<&str>) -> BlockingSession {
    let token = signed_at(c, T0, 3600, "proj");
    match BlockingSession::start_new_at(c, None, Some(&token), refresh, T0 + 10) {
        Bootstrap::Done(s) => s,
        _ => panic!("a valid token needs no exchange"),
    }
}

#[test]
fn refresh_failure_yields_empty_token() {
    let c = creds();
    let mut s = expired_session(&c, Some("R1"));
    let before = s.access_token_unchecked();
    match s.access_token_step_at(T0 + 7200) {
        AccessTokenStep::Refresh { api_key, refresh_token } => {
            assert_eq!(api_key, "api-key");
            assert_eq!(refresh_token, "R1");
        },
        _ => panic!("an expired token needs a refresh"),
    }
    let t = s.finish_refresh(Err(FirebaseError::Api { status: 400, body: "INVALID_REFRESH_TOKEN".to_string() }));
    assert_eq!(t, "");
    assert_eq!(s.access_token_unchecked(), before);
    assert_eq!(s.refresh_token.as_deref(), Some("R1"));
}

#[test]
fn refresh_success_replaces_both_tokens() {
    let c = creds();
    let mut s = expired_session(&c, Some("R1"));
    let resp = RefreshTokenToAccessTokenResponse {
        expires_in: "3600".to_string(),
        token_type: "Bearer".to_string(),
        refresh_token: "R2".to_string(),
        id_token: "new-access".to_string(),
        user_id: "ignored".to_string(),
        project_id: "proj".to_string(),
    };
    assert_eq!(s.finish_refresh(Ok(resp)), "new-access");
    assert_eq!(s.access_token_unchecked(), "new-access");
    assert_eq!(s.refresh_token.as_deref(), Some("R2"));
    assert_eq!(s.user_id, "svc@proj.iam.example.com");
}

#[test]
fn token_steps_for_fresh_and_expired_tokens() {
    let c = creds();
    let s = expired_session(&c, None);
    match s.access_token_step_at(T0 + 60) {
        AccessTokenStep::Ready(t) => assert_eq!(t, s.access_token_unchecked()),
        _ => panic!("a fresh token is handed out"),
    }
    assert!(matches!(s.access_token_step_at(T0 + 3600 + 120), AccessTokenStep::Unavailable));
    assert!(!matches!(s.access_token_step(), AccessTokenStep::Ready(_)));
}

#[test]
fn endpoints_and_request_bodies() {
    assert_eq!(
        token_endpoint("K"),
        "https://www.googleapis.com/identitytoolkit/v3/relyingparty/verifyCustomToken?key=K"
    );
    assert_eq!(refresh_to_access_endpoint("K"), "https://securetoken.googleapis.com/v1/token?key=K");
    assert_eq!(
        sign_in_with_idp_endpoint("K"),
        "https://identitytoolkit.googleapis.com/v1/accounts:signInWithIdp?key=K"
    );
    assert_eq!(identitytoolkit_url("p1"), "https://identitytoolkit.googleapis.com/v1/projects/p1:createSessionCookie");
    assert_eq!(sign_in_with_idp_post_body("tok", OAuth2Provider::GitHub), "access_token=tok&providerId=github.com");
    assert_eq!(get_provider(OAuth2Provider::AppleGameCenter), "gc.apple.com");
    assert_eq!(get_provider(OAuth2Provider::GooglePlayGames), "playgames.google.com");
    assert_eq!(get_provider(OAuth2Provider::Yahoo), "yahoo.com");
    let r = CustomJwtToFirebaseID::new("t".to_string(), false);
    assert_eq!(r.token, "t");
    assert!(!r.return_secure_token);
}

#[test]
fn session_cookie_assertion_and_request() {
    let c = creds();
    let a = session_cookie_jwt(&c, 600).unwrap();
    assert!(!is_expired(&a, 0).unwrap());
    assert!(matches!(session_cookie_jwt(&creds_without_key(), 600), Err(FirebaseError::Configuration)));
    let l = session_login("id".to_string(), 300);
    assert_eq!(l.valid_duration, 300);
    assert_eq!(l.tenant_id, None);
}

#[test]
fn custom_token_request_is_signed_for_the_identity_service() {
    let c = creds();
    let q = BlockingSession::custom_token_request(&c, "user-3", false).unwrap();
    assert!(!q.return_secure_token);
    let mut verifier = c;
    verifier.add_jwks_public_key("key-1".to_string(), bytes(&TEST_PUBLIC_KEY));
    let v = verify_access_token(&verifier, &q.token).unwrap();
    assert_eq!(v.audience, JWT_AUDIENCE_IDENTITY);
    assert_eq!(v.claims.uid.as_deref(), Some("user-3"));
}

#[test]
fn cookie_assertion_claims() {
    let c = creds();
    let j = assertion_claims_at(&c, 900, T0).unwrap();
    assert_eq!(
        j.claims.private.scope.as_deref(),
        Some(
            "https://www.googleapis.com/auth/cloud-platform https://www.googleapis.com/auth/firebase.database \
https://www.googleapis.com/auth/firebase.messaging https://www.googleapis.com/auth/identitytoolkit \
https://www.googleapis.com/auth/userinfo.email"
        )
    );
    assert_eq!(j.claims.registered.expiry, Some(T0 + 900));
    let token = encode_jwt(&c, &j).unwrap();
    let v = verify_access_token_at(&c, &token, T0 + 1).unwrap();
    assert_eq!(v.audience, GOOGLE_OAUTH2_URL);
    assert_eq!(v.get_scopes().len(), 5);
}

#[test]
fn signing_with_an_unusable_key_fails() {
    let mut c = creds_without_key();
    c.add_keypair_key(Secret::Bytes(vec![1, 2, 3]));
    let j = create_jwt_at(&c, None, 60, None, None, "aud", T0).unwrap();
    assert!(matches!(encode_jwt(&c, &j), Err(FirebaseError::Signing)));
}

#[test]
fn service_session_keeps_stale_token_without_key() {
    let mut s = service_account::BlockingSession::new_at(creds(), T0).unwrap();
    let first = s.access_token_unchecked();
    s.credentials.secret = None;
    assert_eq!(s.access_token_at(T0 + 51 * 60), first);
    assert_eq!(s.access_token_at(T0 + 120 * 60), first);
}

const TEST_MODULUS: [&str; 6] = [
    "c4463cac75f06ea965407ac6e9da40bb39477be72e5c23eb0b7538e2a6e56716fef86a8bb8a82ab63aced3b84ef05f72",
    "c3f238589d98a07993507f8f39c58a85964489a7b16ed75b3afc15d9b521d1d3099181ecd1ca4e34c3bce34fae253fd1",
    "69e34342704aa013553e500fca05aa4e147b35ab2dafb6b56b7122e3a1dc1a69a3f1cfe07371e2426e3aa6eb31c0e53f",
    "464c7c3e48b7026a889c63eb0a098e124e2d60ad42b4e2bfe9f2398e4b0a0e55cad795a303d4567ba12554d62a653b45",
    "cefd9d668d8e40278e78585b91637b52d09efdcbeaccbdd19a0bb7820306c370a812fd0fba38dd371eb8c4d10ac0b1c2",
    "208d0ce3c78a24b9276245887d9e080d",
];

#[test]
fn public_key_from_modulus_and_exponent() {
    let der = rsa_public_key_from_components(&bytes(&TEST_MODULUS), &bytes(&["010001"]));
    assert_eq!(der, bytes(&TEST_PUBLIC_KEY));
    let c = creds();
    let token = signed_at(&c, T0, 3600, "aud");
    let mut v = creds_without_key();
    v.add_jwks_public_key("key-1".to_string(), der);
    assert!(verify_access_token_at(&v, &token, T0 + 5).is_ok());
}

#[test]
fn cookie_lifetime_is_checked() {
    assert!(matches!(checked_session_login("t".to_string(), 299), Err(FirebaseError::CookieDuration)));
    assert!(matches!(checked_session_login("t".to_string(), 1_209_601), Err(FirebaseError::CookieDuration)));
    let l = checked_session_login("t".to_string(), 1_209_600).unwrap();
    assert_eq!(l.valid_duration, 1_209_600);
    assert_eq!(l.id_token, "t");
}

#[test]
fn custom_token_request_outcome_decides_the_step() {
    let c = creds();
    let q = CustomJwtToFirebaseID::new("signed".to_string(), true);
    match BlockingSession::after_custom_token_request(&c, "u-1", Ok(q)) {
        Bootstrap::ExchangeCustomToken { api_key, user_id, request } => {
            assert_eq!(api_key, "api-key");
            assert_eq!(user_id, "u-1");
            assert_eq!(request.token, "signed");
        },
        _ => panic!("a signed request is exchanged"),
    }
    let failed = BlockingSession::after_custom_token_request(&c, "u-1", Err(FirebaseError::Signing));
    assert!(matches!(failed, Bootstrap::Failed(FirebaseError::NoCredentialSource)));
}
