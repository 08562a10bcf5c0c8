use firestore_db_and_auth::compact::ClaimValue;
use firestore_db_and_auth::credentials::Credentials;
use firestore_db_and_auth::errors::{FirebaseError, VerificationFailure};
use firestore_db_and_auth::jwt::{
    check_claims, claim_members, claims_from_entries, is_expired, unverified_token_claims, create_jwt_at, is_expired_at, join_scopes, jwt_update_expiry_if_at,
    private_claims_from, split_scope_set, Audience, ClaimSet, JwtOAuthPrivateClaims, StandardClaims,
    TokenValidationResult, JWT_AUDIENCE_FIRESTORE, MAX_TIMESTAMP,
};

const T0: i64 = 1_700_000_000;

fn creds() -> Credentials {
    Credentials::new(
        "proj".to_string(),
        "key-1".to_string(),
        "svc@proj.iam.example.com".to_string(),
        "api-key".to_string(),
    )
}

fn complete_claims() -> ClaimSet {
    ClaimSet {
        registered: StandardClaims {
            issuer: Some("iss".to_string()),
            subject: Some("user-7".to_string()),
            audience: Some(Audience::Single("proj".to_string())),
            expiry: Some(T0 + 3600),
            not_before: None,
            issued_at: Some(T0),
            id: None,
        },
        private: JwtOAuthPrivateClaims { scope: Some("a b".to_string()), client_id: None, uid: Some("u".to_string()) },
    }
}

#[test]
fn scopes_are_joined_by_single_spaces() {
    let v = vec!["a".to_string(), "bb".to_string(), "c".to_string()];
    assert_eq!(join_scopes(&v), "a bb c");
    assert_eq!(join_scopes(&vec!["only".to_string()]), "only");
    assert_eq!(join_scopes(&Vec::new()), "");
}

#[test]
fn scope_set_splits_and_dedups() {
    let r = split_scope_set("read write read");
    assert_eq!(r, vec!["read".to_string(), "write".to_string()]);
    let r = split_scope_set("a  b");
    assert_eq!(r, vec!["a".to_string(), "".to_string(), "b".to_string()]);
    assert_eq!(split_scope_set(""), vec!["".to_string()]);
}

#[test]
fn get_scopes_of_validation_result() {
    let v = TokenValidationResult {
        claims: JwtOAuthPrivateClaims { scope: Some("x y x".to_string()), client_id: None, uid: None },
        audience: "a".to_string(),
        subject: "s".to_string(),
    };
    assert_eq!(v.get_scopes(), vec!["x".to_string(), "y".to_string()]);
    let none = TokenValidationResult {
        claims: JwtOAuthPrivateClaims { scope: None, client_id: None, uid: None },
        audience: "a".to_string(),
        subject: "s".to_string(),
    };
    assert!(none.get_scopes().is_empty());
}

#[test]
fn built_claims_carry_the_arguments() {
    let c = creds();
    let scopes = vec!["s1".to_string(), "s2".to_string()];
    let j = create_jwt_at(&c, Some(&scopes), 600, Some("cid".to_string()), Some("uid".to_string()), "aud", T0).unwrap();
    assert_eq!(j.key_id, "key-1");
    assert_eq!(j.claims.registered.issuer.as_deref(), Some("svc@proj.iam.example.com"));
    assert_eq!(j.claims.registered.subject.as_deref(), Some("svc@proj.iam.example.com"));
    assert!(matches!(&j.claims.registered.audience, Some(Audience::Single(a)) if a == "aud"));
    assert_eq!(j.claims.registered.issued_at, Some(T0));
    assert_eq!(j.claims.registered.expiry, Some(T0 + 600));
    assert_eq!(j.claims.registered.not_before, None);
    assert_eq!(j.claims.private.scope.as_deref(), Some("s1 s2"));
    assert_eq!(j.claims.private.client_id.as_deref(), Some("cid"));
    assert_eq!(j.claims.private.uid.as_deref(), Some("uid"));
}

#[test]
fn empty_scope_list_differs_from_absent_scope() {
    let c = creds();
    let empty: Vec<String> = Vec::new();
    let j = create_jwt_at(&c, Some(&empty), 60, None, None, JWT_AUDIENCE_FIRESTORE, T0).unwrap();
    assert_eq!(j.claims.private.scope.as_deref(), Some(""));
    let j = create_jwt_at(&c, None, 60, None, None, JWT_AUDIENCE_FIRESTORE, T0).unwrap();
    assert_eq!(j.claims.private.scope, None);
}

#[test]
fn expiry_is_issue_time_plus_duration() {
    let c = creds();
    for d in [1i64, 59, 3600, 86_400 * 14] {
        let j = create_jwt_at(&c, None, d, None, None, "aud", T0).unwrap();
        assert_eq!(j.claims.registered.expiry.unwrap() - j.claims.registered.issued_at.unwrap(), d);
    }
}

#[test]
fn timestamps_out_of_range_are_refused() {
    let c = creds();
    let r = create_jwt_at(&c, None, 10, None, None, "aud", MAX_TIMESTAMP - 5);
    assert!(matches!(r, Err(FirebaseError::TimestampRange)));
    let r = create_jwt_at(&c, None, 5, None, None, "aud", MAX_TIMESTAMP - 5);
    assert!(r.is_ok());
}

#[test]
fn expiry_in_whole_minutes_against_tolerance() {
    // 119 seconds past expiry is one whole minute
    assert!(is_expired_at(Some(T0), T0 + 119, 0));
    assert!(!is_expired_at(Some(T0), T0 + 119, 1));
    // 59 seconds past expiry is zero whole minutes
    assert!(!is_expired_at(Some(T0), T0 + 59, 0));
    assert!(!is_expired_at(Some(T0), T0 - 600, 0));
    assert!(is_expired_at(Some(T0), T0 - 600, -11));
    assert!(!is_expired_at(Some(T0), T0 - 600, -10));
    assert!(is_expired_at(None, T0, 1000));
}

#[test]
fn larger_tolerance_never_expires_more() {
    let exp = Some(T0);
    for now in [T0 - 7200, T0 - 61, T0, T0 + 61, T0 + 7200] {
        for tol in -5i64..5 {
            if !is_expired_at(exp, now, tol) {
                assert!(!is_expired_at(exp, now, tol + 1));
            }
        }
    }
}

#[test]
fn reissue_happens_once_per_window() {
    let c = creds();
    let mut j = create_jwt_at(&c, None, 3600, None, None, "aud", T0).unwrap();
    assert!(!jwt_update_expiry_if_at(&mut j, 50, T0 + 49 * 60));
    assert!(!jwt_update_expiry_if_at(&mut j, 50, T0 + 50 * 60 + 59));
    assert_eq!(j.claims.registered.issued_at, Some(T0));
    assert!(jwt_update_expiry_if_at(&mut j, 50, T0 + 51 * 60));
    assert_eq!(j.claims.registered.issued_at, Some(T0 + 51 * 60));
    assert_eq!(j.claims.registered.expiry, Some(T0 + 3600));
    assert!(!jwt_update_expiry_if_at(&mut j, 50, T0 + 52 * 60));
    assert!(!jwt_update_expiry_if_at(&mut j, 50, T0 + 100 * 60));
    assert!(jwt_update_expiry_if_at(&mut j, 50, T0 + 102 * 60));
}

#[test]
fn missing_issue_time_is_set() {
    let c = creds();
    let mut j = create_jwt_at(&c, None, 3600, None, None, "aud", T0).unwrap();
    j.claims.registered.issued_at = None;
    assert!(jwt_update_expiry_if_at(&mut j, 50, T0 + 5));
    assert_eq!(j.claims.registered.issued_at, Some(T0 + 5));
}

#[test]
fn complete_claims_pass() {
    let r = check_claims(complete_claims(), T0 + 10).unwrap();
    assert_eq!(r.subject, "user-7");
    assert_eq!(r.audience, "proj");
    assert_eq!(r.claims.scope.as_deref(), Some("a b"));
    assert_eq!(r.claims.uid.as_deref(), Some("u"));
}

#[test]
fn first_of_several_audiences() {
    let mut c = complete_claims();
    c.registered.audience = Some(Audience::Multiple(vec!["one".to_string(), "two".to_string()]));
    assert_eq!(check_claims(c, T0).unwrap().audience, "one");
    let mut c = complete_claims();
    c.registered.audience = Some(Audience::Multiple(Vec::new()));
    assert!(matches!(check_claims(c, T0), Err(FirebaseError::Verification(VerificationFailure::MissingClaims))));
}

#[test]
fn each_required_claim_is_required() {
    let missing = |f: fn(&mut ClaimSet)| {
        let mut c = complete_claims();
        f(&mut c);
        matches!(check_claims(c, T0 + 10), Err(FirebaseError::Verification(VerificationFailure::MissingClaims)))
    };
    assert!(missing(|c| c.registered.issued_at = None));
    assert!(missing(|c| c.registered.expiry = None));
    assert!(missing(|c| c.registered.issuer = None));
    assert!(missing(|c| c.registered.audience = None));
    assert!(missing(|c| c.registered.subject = None));
    let mut c = complete_claims();
    c.registered.id = None;
    c.registered.not_before = None;
    assert!(check_claims(c, T0 + 10).is_ok());
}

#[test]
fn temporal_claims_are_checked() {
    let r = check_claims(complete_claims(), T0 + 3601);
    assert!(matches!(r, Err(FirebaseError::Verification(VerificationFailure::Expired))));
    assert!(check_claims(complete_claims(), T0 + 3600).is_ok());
    let r = check_claims(complete_claims(), T0 - 1);
    assert!(matches!(r, Err(FirebaseError::Verification(VerificationFailure::NotYetValid))));
    let mut c = complete_claims();
    c.registered.not_before = Some(T0 + 100);
    assert!(matches!(check_claims(c, T0 + 10), Err(FirebaseError::Verification(VerificationFailure::NotYetValid))));
}

#[test]
fn private_claims_from_codec_entries() {
    let entries = vec![
        ("uid".to_string(), ClaimValue::Text("u1".to_string())),
        ("scope".to_string(), ClaimValue::Null),
        ("email".to_string(), ClaimValue::Other),
    ];
    let p = private_claims_from(&entries).unwrap();
    assert_eq!(p.uid.as_deref(), Some("u1"));
    assert_eq!(p.scope, None);
    assert_eq!(p.client_id, None);
    let bad = vec![("client_id".to_string(), ClaimValue::Other)];
    assert!(matches!(private_claims_from(&bad), Err(FirebaseError::TokenFormat)));
}

#[test]
fn claim_members_leave_out_absent_claims() {
    let c = complete_claims();
    let m = claim_members(&c);
    let names: Vec<&str> = m.iter().map(|(k, _)| k.as_str()).collect();
    assert_eq!(names, vec!["iss", "sub", "aud", "exp", "iat", "scope", "uid"]);
    let back = claims_from_entries(&m).unwrap();
    assert_eq!(back.registered.expiry, Some(T0 + 3600));
    assert_eq!(back.private.scope.as_deref(), Some("a b"));
    assert_eq!(back.private.client_id, None);
}

#[test]
fn credentials_key_lookup() {
    let mut c = creds();
    assert!(c.decode_secret(&"k".to_string()).is_none());
    assert!(!c.signing_key_present());
    c.add_jwks_public_key("k".to_string(), vec![1]);
    c.add_jwks_public_key("k".to_string(), vec![2]);
    assert_eq!(c.pub_keys.len(), 1);
    assert_eq!(c.decode_secret(&"k".to_string()), Some(&vec![2u8]));
    assert!(c.decode_secret(&"other".to_string()).is_none());
}

fn base64url(data: &[u8]) -> String {
    const ALPHABET: &[u8] = b"ABCDEFGHIJKLMNOPQRSTUVWXYZabcdefghijklmnopqrstuvwxyz0123456789-_";
    let mut out = String::new();
    for chunk in data.chunks(3) {
        let b = [chunk[0], *chunk.get(1).unwrap_or(&0), *chunk.get(2).unwrap_or(&0)];
        let n = ((b[0] as u32) << 16) | ((b[1] as u32) << 8) | b[2] as u32;
        for i in 0..(chunk.len() + 1) {
            out.push(ALPHABET[((n >> (18 - 6 * i)) & 63) as usize] as char);
        }
    }
    out
}

fn unsigned_token(payload: &str) -> String {
    format!("{}.{}.{}", base64url(br#"{"alg":"RS256","kid":"k"}"#), base64url(payload.as_bytes()), base64url(b"sig"))
}

fn text(s: &str) -> ClaimValue {
    ClaimValue::Text(s.to_string())
}

#[test]
fn registered_claims_read_from_members() {
    let entries = vec![
        ("aud".to_string(), ClaimValue::Texts(vec![Some("a1".to_string()), Some("a2".to_string())])),
        ("exp".to_string(), ClaimValue::Number(Some(T0 + 60))),
        ("iat".to_string(), ClaimValue::Number(Some(T0))),
        ("iss".to_string(), text("issuer")),
        ("nbf".to_string(), ClaimValue::Null),
        ("sub".to_string(), text("subject")),
        ("email_verified".to_string(), ClaimValue::Other),
    ];
    let c = claims_from_entries(&entries).unwrap();
    assert_eq!(c.registered.issuer.as_deref(), Some("issuer"));
    assert_eq!(c.registered.subject.as_deref(), Some("subject"));
    assert!(matches!(&c.registered.audience, Some(Audience::Multiple(v)) if v == &vec!["a1".to_string(), "a2".to_string()]));
    assert_eq!(c.registered.expiry, Some(T0 + 60));
    assert_eq!(c.registered.issued_at, Some(T0));
    assert_eq!(c.registered.not_before, None);
    assert_eq!(c.registered.id, None);
    assert_eq!(check_claims(c, T0 + 1).unwrap().audience, "a1");
}

#[test]
fn malformed_registered_claims_are_refused() {
    let bad = |k: &str, v: ClaimValue| matches!(claims_from_entries(&vec![(k.to_string(), v)]), Err(FirebaseError::TokenFormat));
    assert!(bad("exp", ClaimValue::Number(None)));
    assert!(bad("exp", ClaimValue::Number(Some(MAX_TIMESTAMP + 1))));
    assert!(bad("iat", text("yesterday")));
    assert!(bad("aud", ClaimValue::Texts(vec![Some("a".to_string()), None])));
    assert!(bad("aud", ClaimValue::Number(Some(3))));
    assert!(bad("sub", ClaimValue::Other));
    assert!(bad("scope", ClaimValue::Number(Some(1))));
    assert!(claims_from_entries(&vec![("exp".to_string(), ClaimValue::Number(Some(MAX_TIMESTAMP)))]).is_ok());
}

#[test]
fn token_claims_decoded_without_signature_check() {
    let t = unsigned_token(r#"{"sub":"s1","aud":"p","exp":1700000060,"iat":1700000000,"iss":"i","uid":"u"}"#);
    let c = unverified_token_claims(&t).unwrap();
    assert_eq!(c.registered.subject.as_deref(), Some("s1"));
    assert_eq!(c.registered.expiry, Some(T0 + 60));
    assert_eq!(c.private.uid.as_deref(), Some("u"));
    assert!(is_expired(&t, 0).unwrap());
    let far = unsigned_token(r#"{"exp":4000000000}"#);
    assert!(!is_expired(&far, 0).unwrap());
    let none = unsigned_token(r#"{"sub":"s"}"#);
    assert!(is_expired(&none, 1_000_000).unwrap());
}

#[test]
fn out_of_range_times_in_a_token_are_malformed() {
    let t = unsigned_token(r#"{"exp":1000000000000000}"#);
    assert!(matches!(unverified_token_claims(&t), Err(FirebaseError::TokenFormat)));
    assert!(matches!(is_expired(&t, 0), Err(FirebaseError::TokenFormat)));
    let t = unsigned_token(r#"{"exp":1.5}"#);
    assert!(matches!(is_expired(&t, 0), Err(FirebaseError::TokenFormat)));
    let t = unsigned_token("[1,2]");
    assert!(matches!(is_expired(&t, 0), Err(FirebaseError::TokenFormat)));
}
