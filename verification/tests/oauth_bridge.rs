//! The OAuth bridge's verified pieces: the caching-directive parser, the
//! cache staleness decision, key selection, token verification failure paths
//! and user mapping.

use activity_auth::errors::AuthError;
use activity_auth::ledger::TokenLedger;
use activity_auth::oauth::{
    cache_expiry, certs_usable, find_cert, oauth_login, oauth_user, parse_max_age,
    verify_google_token, GoogleCert, GoogleCerts, GoogleCertsResponse, GoogleClaims,
};
use activity_auth::users::{Role, User};

fn bytes(s: &str) -> Vec<u8> {
    s.as_bytes().to_vec()
}

#[test]
fn parse_max_age_values() {
    assert_eq!(parse_max_age(&bytes("max-age=3600")), Some(3600));
    assert_eq!(
        parse_max_age(&bytes("public, max-age=605, must-revalidate")),
        Some(605)
    );
    assert_eq!(parse_max_age(&bytes("xmax-age=12")), Some(12));
    assert_eq!(parse_max_age(&bytes("max-age=5, max-age=7")), Some(5));
    assert_eq!(parse_max_age(&bytes("max-age=0")), Some(0));
    assert_eq!(
        parse_max_age(&bytes("max-age=18446744073709551615")),
        Some(u64::MAX)
    );
}

#[test]
fn parse_max_age_absent_or_overflowing() {
    assert_eq!(parse_max_age(&bytes("")), None);
    assert_eq!(parse_max_age(&bytes("no-cache")), None);
    assert_eq!(parse_max_age(&bytes("max-age=")), None);
    assert_eq!(parse_max_age(&bytes("max-age=x9")), None);
    assert_eq!(parse_max_age(&bytes("max-age")), None);
    // One past u64::MAX.
    assert_eq!(parse_max_age(&bytes("max-age=18446744073709551616")), None);
    assert_eq!(parse_max_age(&bytes("max-age=99999999999999999999999")), None);
}

#[test]
fn cache_expiry_and_staleness() {
    assert_eq!(cache_expiry(1000, 605), Some(1605));
    assert_eq!(cache_expiry(u64::MAX - 1, 2), None);

    let empty = GoogleCerts { exp: None, certs: None };
    assert!(!certs_usable(&empty, 10));

    let keys = GoogleCertsResponse { keys: vec![] };
    let live = GoogleCerts { exp: Some(100), certs: Some(keys) };
    assert!(certs_usable(&live, 99));
    assert!(!certs_usable(&live, 100));

    let keys = GoogleCertsResponse { keys: vec![] };
    let no_expiry = GoogleCerts { exp: None, certs: Some(keys) };
    assert!(!certs_usable(&no_expiry, 0));
}

fn cert(kid: &str) -> GoogleCert {
    GoogleCert {
        kid: kid.to_string(),
        n: "AQAB".to_string(),
        e: "AQAB".to_string(),
    }
}

#[test]
fn find_cert_selects_by_kid() {
    let keys = vec![cert("k1"), cert("k2")];
    let found = find_cert(&keys, &"k2".to_string()).expect("found");
    assert_eq!(found.kid, "k2");
    assert!(find_cert(&keys, &"k3".to_string()).is_none());
    assert!(find_cert(&vec![], &"k1".to_string()).is_none());
}

#[test]
fn unverifiable_identity_tokens_collapse_to_internal_error() {
    let certs = GoogleCertsResponse { keys: vec![cert("k1")] };
    let aud = "expected-audience".to_string();

    // Structurally broken token: the header cannot be decoded.
    let garbage = "not-a-jwt".to_string();
    let r = verify_google_token(&garbage, &certs, &aud, 0);
    assert!(matches!(r, Err(AuthError::InternalError)));

    // Well-formed shape but no matching key id / invalid signature.
    let fake = "eyJhbGciOiJSUzI1NiJ9.e30.c2ln".to_string();
    let r = verify_google_token(&fake, &certs, &aud, 0);
    assert!(matches!(r, Err(AuthError::InternalError)));

    // The same failure through the full flow leaves the ledger untouched.
    let mut ledger = TokenLedger::new();
    let key = b"secret".to_vec();
    let r = oauth_login(&mut ledger, &key, &garbage, &certs, &aud, None, 0);
    assert!(matches!(r, Err(AuthError::InternalError)));
    assert_eq!(ledger.len(), 0);
}

fn google_claims() -> GoogleClaims {
    GoogleClaims {
        sub: "google-sub".to_string(),
        email: "a@test.com".to_string(),
        given_name: "Ada".to_string(),
        family_name: "Tester".to_string(),
        exp: 2_000_000_000,
    }
}

#[test]
fn oauth_user_uses_existing_or_creates() {
    let existing = User::new(
        "a@test.com".to_string(),
        "Secret1!".to_string(),
        "Ada".to_string(),
        "Tester".to_string(),
        1_700_000_000,
    )
    .expect("user");
    let id = existing.id.clone();

    let (u, created) = oauth_user(
        Some(existing),
        &google_claims(),
        "RandomPw0!!".to_string(),
        1_700_000_000,
    )
    .expect("existing");
    assert!(!created);
    assert_eq!(u.id, id);

    let (u, created) = oauth_user(None, &google_claims(), "RandomPw0!!".to_string(), 1_700_000_000)
        .expect("created");
    assert!(created);
    assert_eq!(u.email, "a@test.com");
    assert_eq!(u.given_name, "Ada");
    assert_eq!(u.family_name, "Tester");
    assert_eq!(u.role, Role::User);
    assert!(!u.verified);
    assert_ne!(u.pass, "RandomPw0!!");
}
