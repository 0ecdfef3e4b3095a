//! Data-model conversions, cookie attributes, error codes, hashing and the
//! identifier and password generators.

use activity_auth::activity::{
    ActivityVariant, ExerciseVariant, PatchActivityBody, PatchActivityPayload,
};
use activity_auth::claims::{AccessToken, RefreshToken, REFRESH_TOKEN_TTL_SECS};
use activity_auth::cookies::{
    access_cookie, refresh_check_cookie, refresh_cookie, revoked_expiry, SameSitePolicy, WEEK_SECS,
};
use activity_auth::errors::{AppError, AuthError};
use activity_auth::users::{Role, User, UserResponse};
use activity_auth::util::{generate_jti, generate_password, generate_test_email, new_object_id};

const NOW: u64 = 1_700_000_000;

#[test]
fn error_codes_and_messages() {
    assert_eq!(AuthError::WrongCredentials.status_code(), 401);
    assert_eq!(AuthError::MissingCredentials.status_code(), 400);
    assert_eq!(AuthError::InvalidToken.status_code(), 401);
    assert_eq!(AuthError::MissingToken.status_code(), 401);
    assert_eq!(AuthError::InternalError.status_code(), 500);
    assert_eq!(AuthError::Forbidden.status_code(), 403);

    assert_eq!(AuthError::WrongCredentials.message(), "Wrong credentials");
    assert_eq!(AuthError::Forbidden.message(), "Access forbidden");
    assert_eq!(AuthError::InternalError.message(), "Internal Error");

    let e = AppError::new(404, "activity not found!".to_string());
    assert_eq!(e.code, 404);
    assert_eq!(e.message, "activity not found!");
}

#[test]
fn role_labels_round_trip_and_reject_unknown() {
    assert_eq!(Role::parse(&"admin".to_string()), Some(Role::Admin));
    assert_eq!(Role::parse(&"Admin".to_string()), Some(Role::Admin));
    assert_eq!(Role::parse(&"user".to_string()), Some(Role::User));
    assert_eq!(Role::parse(&"User".to_string()), Some(Role::User));
    assert_eq!(Role::parse(&"root".to_string()), None);
    assert_eq!(Role::parse(&"".to_string()), None);

    assert_eq!(Role::Admin.label(), "admin");
    assert_eq!(Role::User.label(), "user");
    assert_eq!(Role::parse(&Role::Admin.label()), Some(Role::Admin));
}

#[test]
fn activity_variant_labels_round_trip_and_reject_unknown() {
    assert_eq!(
        ActivityVariant::parse(&"default".to_string()),
        Some(ActivityVariant::Default)
    );
    assert_eq!(
        ActivityVariant::parse(&"exercise".to_string()),
        Some(ActivityVariant::Exercise)
    );
    assert_eq!(ActivityVariant::parse(&"Default".to_string()), None);
    assert_eq!(ActivityVariant::parse(&"sport".to_string()), None);
    assert_eq!(ActivityVariant::Default.label(), "default");
    assert_eq!(ActivityVariant::Exercise.label(), "exercise");

    assert_eq!(
        ExerciseVariant::parse(&"strength".to_string()),
        Some(ExerciseVariant::Strength)
    );
    assert_eq!(
        ExerciseVariant::parse(&"mobility".to_string()),
        Some(ExerciseVariant::Mobility)
    );
    assert_eq!(
        ExerciseVariant::parse(&"cardio".to_string()),
        Some(ExerciseVariant::Cardio)
    );
    assert_eq!(ExerciseVariant::parse(&"yoga".to_string()), None);
    assert_eq!(ExerciseVariant::Cardio.label(), "cardio");
}

#[test]
fn patch_payload_attaches_path_id() {
    let body = PatchActivityBody {
        variant: Some(ActivityVariant::Exercise),
        title: Some("test update".to_string()),
        group: Some("update group".to_string()),
        notes: None,
        start: None,
        end: Some("2000-01-01T10:30:00.000Z".to_string()),
        timezone: Some(0),
        data: None,
        color: None,
    };
    let p = PatchActivityPayload::from_body("5f00b442bab42e04c05f5a9e".to_string(), body);
    assert_eq!(p.id, "5f00b442bab42e04c05f5a9e");
    assert_eq!(p.title.as_deref(), Some("test update"));
    assert_eq!(p.variant, Some(ActivityVariant::Exercise));
    assert_eq!(p.notes, None);
}

#[test]
fn user_record_and_response_projection() {
    let u = User::new(
        "test@test.com".to_string(),
        "TEST".to_string(),
        "testy".to_string(),
        "mctestface".to_string(),
        NOW,
    )
    .expect("user");
    assert_eq!(u.email, "test@test.com");
    assert_ne!(u.pass, "TEST");
    assert!(u.pass.starts_with("$2"));
    assert_eq!(u.pass.len(), 60);
    assert_eq!(u.id.len(), 24);
    assert_eq!(u.v, 1);

    // The projection never carries the password hash.
    let email = u.email.clone();
    let r = UserResponse::from(u);
    assert_eq!(r.email, email);
    assert_eq!(r.given_name, "testy");
    assert!(!r.verified);
}

#[test]
fn cookies_carry_tokens_and_policy() {
    let key = b"cookie-test-secret".to_vec();
    let sub = "5f00b442bab42e04c05f5a9e".to_string();
    let access = AccessToken::new(&key, &sub, NOW).expect("sign");
    let refresh = RefreshToken::new(&key, &sub, None, NOW).expect("sign");

    let dev = "dev".to_string();
    let c = access_cookie(&access, &dev);
    assert_eq!(c.name, "access");
    assert_eq!(c.value, access.token);
    assert_eq!(c.path, "/");
    assert_eq!(c.expires, access.claims.exp);
    assert!(c.http_only);
    assert!(!c.secure);
    assert_eq!(c.same_site, Some(SameSitePolicy::Lax));

    let prod = "prod".to_string();
    let c = refresh_cookie(&refresh, &prod);
    assert_eq!(c.name, "refresh");
    assert_eq!(c.expires, NOW + REFRESH_TOKEN_TTL_SECS);
    assert!(c.secure);
    assert_eq!(c.same_site, Some(SameSitePolicy::CrossSite));

    let staging = "staging".to_string();
    let c = access_cookie(&access, &staging);
    assert_eq!(c.same_site, None);
    assert!(!c.secure);

    let c = refresh_check_cookie(refresh.claims.exp);
    assert_eq!(c.name, "refresh-check");
    assert_eq!(c.value, "1");
    assert!(!c.http_only);
    assert_eq!(c.same_site, Some(SameSitePolicy::Lax));

    assert_eq!(revoked_expiry(NOW), NOW - WEEK_SECS);
    assert_eq!(revoked_expiry(5), 0);
}

#[test]
fn generated_identifiers_and_passwords() {
    let jti = generate_jti();
    assert_eq!(jti.len(), 36);
    assert_ne!(jti, generate_jti());

    let id = new_object_id();
    assert_eq!(id.len(), 24);
    assert!(id.chars().all(|c| c.is_ascii_hexdigit()));

    let pw = generate_password(20);
    assert_eq!(pw.chars().count(), 20);
    let specials = "!@#$%^&*()_+-=[]{}|;:,.<>?";
    let tail: Vec<char> = pw.chars().rev().take(2).collect();
    assert!(tail.iter().all(|c| specials.contains(*c)));
    assert!(pw.chars().take(18).all(|c| c.is_ascii_alphanumeric()));

    let email = generate_test_email();
    assert_eq!(email.chars().count(), 21);
    assert!(email.ends_with("@test.com"));

    // Hashing is salted: two hashes of one password differ, both verify.
    let u1 = User::new(
        "x@test.com".to_string(),
        "Same1!".to_string(),
        "a".to_string(),
        "b".to_string(),
        NOW,
    )
    .expect("user");
    let u2 = User::new(
        "y@test.com".to_string(),
        "Same1!".to_string(),
        "a".to_string(),
        "b".to_string(),
        NOW,
    )
    .expect("user");
    assert_ne!(u1.pass, u2.pass);
    assert!(bcrypt::verify("Same1!", &u1.pass).unwrap());
    assert!(!bcrypt::verify("Other1!", &u1.pass).unwrap());
}
