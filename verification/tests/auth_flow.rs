//! End-to-end exercises of the authentication core: registration, login,
//! token verification, rotation, replay detection and logout, against the
//! real hashing and signing crates and an in-memory ledger.

use activity_auth::auth::{check_credentials_present, issue_session, login, logout, register, AuthPayload};
use activity_auth::claims::{AccessToken, RefreshToken, ACCESS_TOKEN_TTL_SECS};
use activity_auth::errors::AuthError;
use activity_auth::ledger::TokenLedger;
use activity_auth::session::authenticate;
use activity_auth::users::{RegisterUserPayload, Role, User};

const NOW: u64 = 1_700_000_000;

fn key() -> Vec<u8> {
    b"a-test-signing-secret".to_vec()
}

fn payload() -> RegisterUserPayload {
    RegisterUserPayload {
        email: "a@test.com".to_string(),
        pass: "Secret1!".to_string(),
        given_name: "Ada".to_string(),
        family_name: "Tester".to_string(),
    }
}

fn copy_user(u: &User) -> User {
    User {
        id: u.id.clone(),
        email: u.email.clone(),
        pass: u.pass.clone(),
        role: u.role,
        active: u.active,
        activities: u.activities.clone(),
        verified: u.verified,
        given_name: u.given_name.clone(),
        family_name: u.family_name.clone(),
        img: u.img.clone(),
        created_at: u.created_at,
        v: u.v,
    }
}

#[test]
fn register_creates_profile_and_ledger_entries() {
    let key = key();
    let mut ledger = TokenLedger::new();
    let (user, pair) = register(&mut ledger, &key, payload(), NOW).expect("register");

    assert_eq!(user.email, "a@test.com");
    assert!(!user.verified);
    assert!(user.active);
    assert_eq!(user.role, Role::User);
    assert_eq!(user.id.len(), 24);
    assert_ne!(user.pass, "Secret1!");

    // One ledger entry per issued token, neither blacklisted.
    assert_eq!(ledger.len(), 2);
    let a = ledger.lookup(&pair.access.claims.jti).expect("access entry");
    let r = ledger.lookup(&pair.refresh.claims.jti).expect("refresh entry");
    assert_eq!(a.uid, user.id);
    assert_eq!(r.uid, user.id);
    assert!(!a.black && !r.black);
    assert_eq!(a.exp, NOW + ACCESS_TOKEN_TTL_SECS);
    assert_eq!(pair.access.claims.sub, user.id);
    assert_eq!(pair.refresh.claims.sub, user.id);
    assert_ne!(pair.access.claims.jti, pair.refresh.claims.jti);
}

#[test]
fn login_issues_both_credentials_and_records_them() {
    let key = key();
    let mut ledger = TokenLedger::new();
    let (user, _) = register(&mut ledger, &key, payload(), NOW).expect("register");
    let before = ledger.len();

    let creds = AuthPayload { email: "a@test.com".to_string(), pass: "Secret1!".to_string() };
    let (pair, resp) = login(&mut ledger, &key, &creds, Some(copy_user(&user)), NOW)
        .expect("login");

    assert_eq!(ledger.len(), before + 2);
    assert!(ledger.lookup(&pair.access.claims.jti).is_some());
    assert!(ledger.lookup(&pair.refresh.claims.jti).is_some());
    assert_eq!(resp.email, "a@test.com");
    assert_eq!(resp.id, user.id);
    assert!(!pair.access.token.is_empty());
    assert!(!pair.refresh.token.is_empty());
}

#[test]
fn login_rejects_wrong_missing_and_unknown_credentials() {
    let key = key();
    let mut ledger = TokenLedger::new();
    let (user, _) = register(&mut ledger, &key, payload(), NOW).expect("register");
    let before = ledger.len();

    let wrong = AuthPayload { email: "a@test.com".to_string(), pass: "NotSecret1!".to_string() };
    let r = login(&mut ledger, &key, &wrong, Some(copy_user(&user)), NOW);
    assert!(matches!(r, Err(AuthError::WrongCredentials)));

    let no_email = AuthPayload { email: "".to_string(), pass: "NotSecret1!".to_string() };
    let r = login(&mut ledger, &key, &no_email, Some(copy_user(&user)), NOW);
    assert!(matches!(r, Err(AuthError::MissingCredentials)));
    let no_pass = AuthPayload { email: "a@test.com".to_string(), pass: "".to_string() };
    let r = login(&mut ledger, &key, &no_pass, Some(copy_user(&user)), NOW);
    assert!(matches!(r, Err(AuthError::MissingCredentials)));

    let good = AuthPayload { email: "a@test.com".to_string(), pass: "Secret1!".to_string() };
    let r = login(&mut ledger, &key, &good, None, NOW);
    assert!(matches!(r, Err(AuthError::WrongCredentials)));

    let email = "a@test.com".to_string();
    let empty = "".to_string();
    let pass = "Secret1!".to_string();

    // No failed attempt recorded anything.
    assert_eq!(ledger.len(), before);

    assert!(check_credentials_present(&email, &pass).is_ok());
    assert!(matches!(
        check_credentials_present(&empty, &pass),
        Err(AuthError::MissingCredentials)
    ));
}

#[test]
fn access_token_verification_round_trips_subject() {
    let key = key();
    let sub = "5f00b442bab42e04c05f5a9e".to_string();
    let token = AccessToken::new(&key, &sub, NOW).expect("sign");
    assert_eq!(token.claims.sub, sub);
    assert_eq!(token.claims.iat, NOW);
    assert_eq!(token.claims.exp, NOW + ACCESS_TOKEN_TTL_SECS);
    assert_eq!(token.claims.jti.len(), 36);

    // Presented before expiry: same claims come back.
    let parsed = AccessToken::parse(&key, Some(&token.token), NOW + 1).expect("parse");
    assert!(!parsed.expired);
    assert_eq!(parsed.claims.sub, sub);
    assert_eq!(parsed.claims.jti, token.claims.jti);
    assert_eq!(parsed.claims.iat, NOW);

    // Presented after expiry: still decodable, marked expired.
    let stale = AccessToken::parse(&key, Some(&token.token), NOW + ACCESS_TOKEN_TTL_SECS)
        .expect("parse expired");
    assert!(stale.expired);
    assert_eq!(stale.claims.sub, sub);

    // Through the middleware: accepted, no rotation, same subject.
    let mut ledger = TokenLedger::new();
    let out = authenticate(&mut ledger, &key, Some(&token.token), None, NOW + 1).expect("auth");
    assert_eq!(out.claims.sub, sub);
    assert!(out.issued.is_none());
}

#[test]
fn tampered_or_foreign_tokens_are_rejected() {
    let key = key();
    let sub = "5f00b442bab42e04c05f5a9e".to_string();
    let token = AccessToken::new(&key, &sub, NOW).expect("sign");

    let other_key = b"a-different-secret".to_vec();
    let r = AccessToken::parse(&other_key, Some(&token.token), NOW);
    assert!(matches!(r, Err(AuthError::InvalidToken)));

    let mut tampered = token.token.clone();
    tampered.push('x');
    let r = AccessToken::parse(&key, Some(&tampered), NOW);
    assert!(matches!(r, Err(AuthError::InvalidToken)));

    let r = AccessToken::parse(&key, None, NOW);
    assert!(matches!(r, Err(AuthError::MissingToken)));

    let garbage = "not-a-token".to_string();
    let r = RefreshToken::parse(&key, Some(&garbage), NOW);
    assert!(matches!(r, Err(AuthError::InvalidToken)));
}

#[test]
fn rotation_consumes_refresh_token_and_reissues() {
    let key = key();
    let mut ledger = TokenLedger::new();
    let sub = "5f00b442bab42e04c05f5a9e".to_string();
    let pair = issue_session(&mut ledger, &key, &sub, NOW).expect("issue");

    // Past access expiry, within refresh lifetime.
    let later = NOW + ACCESS_TOKEN_TTL_SECS + 1;
    let out = authenticate(
        &mut ledger,
        &key,
        Some(&pair.access.token),
        Some(&pair.refresh.token),
        later,
    )
    .expect("rotation");

    let issued = out.issued.expect("new credentials");
    assert_eq!(out.claims.sub, sub);
    assert_ne!(issued.access.token, pair.access.token);
    assert_ne!(issued.refresh.token, pair.refresh.token);
    assert_ne!(issued.refresh.claims.jti, pair.refresh.claims.jti);
    // The refresh lifetime is inherited, capping the session.
    assert_eq!(issued.refresh.claims.exp, pair.refresh.claims.exp);
    assert_eq!(issued.access.claims.exp, later + ACCESS_TOKEN_TTL_SECS);

    // The consumed refresh jti is blacklisted; the new jtis are recorded.
    let old = ledger.lookup(&pair.refresh.claims.jti).expect("old entry");
    assert!(old.black);
    assert!(!ledger.lookup(&issued.access.claims.jti).expect("new access").black);
    assert!(!ledger.lookup(&issued.refresh.claims.jti).expect("new refresh").black);
}

#[test]
fn replayed_refresh_token_is_forbidden_and_revokes_family() {
    let key = key();
    let mut ledger = TokenLedger::new();
    let sub = "5f00b442bab42e04c05f5a9e".to_string();
    let pair = issue_session(&mut ledger, &key, &sub, NOW).expect("issue");

    let later = NOW + ACCESS_TOKEN_TTL_SECS + 1;
    let first = authenticate(
        &mut ledger,
        &key,
        Some(&pair.access.token),
        Some(&pair.refresh.token),
        later,
    );
    assert!(first.is_ok());

    // Second use of the same refresh token: at most one rotation succeeds.
    let second = authenticate(
        &mut ledger,
        &key,
        Some(&pair.access.token),
        Some(&pair.refresh.token),
        later,
    );
    assert!(matches!(second, Err(AuthError::Forbidden)));

    // Every ledger entry of the subject is blacklisted now.
    for i in 0..ledger.len() {
        let e = ledger.entry_at(i);
        if e.uid == sub {
            assert!(e.black);
        }
    }
}

#[test]
fn logout_revokes_all_and_later_requests_are_forbidden() {
    let key = key();
    let mut ledger = TokenLedger::new();
    let (user, pair) = register(&mut ledger, &key, payload(), NOW).expect("register");

    let revoked = logout(&mut ledger, &key, Some(&pair.refresh.token), NOW).expect("logout");
    assert_eq!(revoked, user.id);
    for i in 0..ledger.len() {
        assert!(ledger.entry_at(i).black);
    }

    // The still-unexpired access token is now refused with Forbidden — the
    // signature is fine, the ledger forbids it.
    let r = authenticate(&mut ledger, &key, Some(&pair.access.token), None, NOW + 1);
    assert!(matches!(r, Err(AuthError::Forbidden)));

    // Logout without a refresh credential reports it missing.
    let r = logout(&mut ledger, &key, None, NOW);
    assert!(matches!(r, Err(AuthError::MissingToken)));
}

#[test]
fn end_to_end_register_rotate_logout() {
    let key = key();
    let mut ledger = TokenLedger::new();

    // Register: both credentials, profile not yet verified.
    let (user, pair) = register(&mut ledger, &key, payload(), NOW).expect("register");
    assert!(!user.verified);
    assert!(!pair.access.token.is_empty() && !pair.refresh.token.is_empty());

    // Wrong password for the same email.
    let wrong = AuthPayload { email: "a@test.com".to_string(), pass: "Secret2!".to_string() };
    let r = login(&mut ledger, &key, &wrong, Some(copy_user(&user)), NOW);
    assert!(matches!(r, Err(AuthError::WrongCredentials)));

    // Past access expiry, the original request is replayed: rotation.
    let later = NOW + ACCESS_TOKEN_TTL_SECS + 1;
    let out = authenticate(
        &mut ledger,
        &key,
        Some(&pair.access.token),
        Some(&pair.refresh.token),
        later,
    )
    .expect("rotation");
    let fresh = out.issued.expect("rotated credentials");
    assert_eq!(out.claims.sub, user.id);
    assert_ne!(fresh.access.token, pair.access.token);
    assert_ne!(fresh.refresh.token, pair.refresh.token);

    // Logout, then a request with the (unexpired) rotated access credential.
    logout(&mut ledger, &key, Some(&fresh.refresh.token), later).expect("logout");
    let r = authenticate(&mut ledger, &key, Some(&fresh.access.token), None, later + 1);
    assert!(matches!(r, Err(AuthError::Forbidden)));
}

#[test]
fn expired_access_with_bad_refresh_is_invalid_token() {
    let key = key();
    let mut ledger = TokenLedger::new();
    let sub = "5f00b442bab42e04c05f5a9e".to_string();
    let pair = issue_session(&mut ledger, &key, &sub, NOW).expect("issue");
    let later = NOW + ACCESS_TOKEN_TTL_SECS + 1;

    // Missing refresh during rotation.
    let r = authenticate(&mut ledger, &key, Some(&pair.access.token), None, later);
    assert!(matches!(r, Err(AuthError::InvalidToken)));

    // Refresh bound to a different subject.
    let other = "ffffffffffffffffffffffff".to_string();
    let foreign = RefreshToken::new(&key, &other, None, later).expect("sign");
    let r = authenticate(
        &mut ledger,
        &key,
        Some(&pair.access.token),
        Some(&foreign.token),
        later,
    );
    assert!(matches!(r, Err(AuthError::InvalidToken)));

    // Refresh itself expired.
    let r = authenticate(
        &mut ledger,
        &key,
        Some(&pair.access.token),
        Some(&pair.refresh.token),
        pair.refresh.claims.exp + 1,
    );
    assert!(matches!(r, Err(AuthError::InvalidToken)));
}
