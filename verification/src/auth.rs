//! Route-surface flows: login, registration and logout.
//!
//! Each flow takes the ledger, the signing key, a clock reading and the plain
//! values the transport layer extracted; persistence lookups are handed in as
//! arguments and persistence writes are reflected in the ledger, so every
//! decision in between is verified.

use vstd::prelude::*;

use crate::claims::{AccessToken, RefreshToken, REFRESH_TOKEN_TTL_SECS};
use crate::claims::jwt_claims_of;
use crate::credentials::{bcrypt_matches, verify_password};
use crate::errors::AuthError;
use crate::ledger::{blacklist_uid_spec, TokenDB, TokenEntryView, TokenLedger};
use crate::session::{session_issued, TokenPair};
use crate::users::{user_response_of, RegisterUserPayload, Role, User, UserResponse};

verus! {

/// The credentials a login request carries.
pub struct AuthPayload {
    pub email: String,
    pub pass: String,
}

/// Mint, sign and record a fresh access/refresh pair for `sub`: the first
/// issuance of a session, shared by the password flow, registration and the
/// OAuth bridge. Signing under the HMAC key is total, so issuance always
/// succeeds and both entries are always recorded.
pub fn issue_session(ledger: &mut TokenLedger, key: &Vec<u8>, sub: &String, now: u64) -> (r: Result<
    TokenPair,
    AuthError,
>)
    requires
        now + REFRESH_TOKEN_TTL_SECS <= u64::MAX,
    ensures
        r is Ok,
        r matches Ok(p) ==> session_issued(key@, sub@, now as int, old(ledger)@, final(ledger)@, p),
{
    let access = match AccessToken::new(key, sub, now) {
        Ok(t) => t,
        Err(e) => {
            return Err(e);
        },
    };
    let refresh = match RefreshToken::new(key, sub, None, now) {
        Ok(t) => t,
        Err(e) => {
            return Err(e);
        },
    };
    ledger.record(
        TokenDB::new(access.claims.sub.clone(), access.claims.jti.clone(), access.claims.exp),
    );
    ledger.record(
        TokenDB::new(refresh.claims.sub.clone(), refresh.claims.jti.clone(), refresh.claims.exp),
    );
    Ok(TokenPair { access, refresh })
}

/// Reject a login attempt that carries no credentials at all.
pub fn check_credentials_present(email: &String, pass: &String) -> (r: Result<(), AuthError>)
    ensures
        (email@.len() == 0 || pass@.len() == 0) <==> r == Err::<(), AuthError>(
            AuthError::MissingCredentials,
        ),
        r matches Err(e) ==> e == AuthError::MissingCredentials,
{
    if email.as_str().is_empty() || pass.as_str().is_empty() {
        Err(AuthError::MissingCredentials)
    } else {
        Ok(())
    }
}

/// The credential decision of a login attempt: both inputs present, a stored
/// user found, and the password matching its stored hash. Returns the user to
/// issue a session for. Callers that keep the ledger elsewhere make this
/// decision here and only perform the issuance writes themselves.
pub fn authorize_user(email: &String, pass: &String, user: Option<User>) -> (r: Result<
    User,
    AuthError,
>)
    ensures
        (email@.len() == 0 || pass@.len() == 0) ==> r == Err::<User, AuthError>(
            AuthError::MissingCredentials,
        ),
        (email@.len() > 0 && pass@.len() > 0) ==> (match user {
            None => r == Err::<User, AuthError>(AuthError::WrongCredentials),
            Some(u) => match r {
                Ok(v) => v == u && bcrypt_matches(pass@, u.pass@),
                Err(e) => {
                    &&& !bcrypt_matches(pass@, u.pass@)
                    &&& (e == AuthError::WrongCredentials || e == AuthError::InternalError)
                },
            },
        }),
{
    match check_credentials_present(email, pass) {
        Ok(_) => {},
        Err(e) => {
            return Err(e);
        },
    }
    let u = match user {
        Some(u) => u,
        None => {
            return Err(AuthError::WrongCredentials);
        },
    };
    match verify_password(pass, &u.pass) {
        Some(true) => Ok(u),
        Some(false) => Err(AuthError::WrongCredentials),
        None => Err(AuthError::InternalError),
    }
}

/// Full contract of a login attempt, by case over the supplied credentials
/// and the stored user the persistence layer found for the email.
pub open spec fn login_post(
    key: Seq<u8>,
    email: Seq<char>,
    pass: Seq<char>,
    user: Option<User>,
    now: int,
    old_l: Seq<TokenEntryView>,
    new_l: Seq<TokenEntryView>,
    r: Result<(TokenPair, UserResponse), AuthError>,
) -> bool {
    if email.len() == 0 || pass.len() == 0 {
        r == Err::<(TokenPair, UserResponse), AuthError>(AuthError::MissingCredentials) && new_l
            == old_l
    } else {
        match user {
            None => r == Err::<(TokenPair, UserResponse), AuthError>(AuthError::WrongCredentials)
                && new_l == old_l,
            Some(u) => match r {
                Ok(o) => {
                    &&& bcrypt_matches(pass, u.pass@)
                    &&& session_issued(key, u.id@, now, old_l, new_l, o.0)
                    &&& o.1 == user_response_of(u)
                },
                Err(e) => {
                    &&& new_l == old_l
                    &&& !bcrypt_matches(pass, u.pass@)
                    &&& (e == AuthError::WrongCredentials || e == AuthError::InternalError)
                },
            },
        }
    }
}

/// Password login. `user` is what the persistence layer found for `email`
/// (the lookup itself is an outside call); everything from the
/// missing-credentials check through password verification, token issuance
/// and ledger recording is decided here. A matching password always logs in:
/// both fresh jtis are recorded and the user-safe profile projection is
/// returned.
pub fn login(
    ledger: &mut TokenLedger,
    key: &Vec<u8>,
    payload: &AuthPayload,
    user: Option<User>,
    now: u64,
) -> (r: Result<(TokenPair, UserResponse), AuthError>)
    requires
        now + REFRESH_TOKEN_TTL_SECS <= u64::MAX,
    ensures
        login_post(
            key@,
            payload.email@,
            payload.pass@,
            user,
            now as int,
            old(ledger)@,
            final(ledger)@,
            r,
        ),
{
    let u = match authorize_user(&payload.email, &payload.pass, user) {
        Ok(u) => u,
        Err(e) => {
            return Err(e);
        },
    };
    let pair = match issue_session(ledger, key, &u.id, now) {
        Ok(p) => p,
        Err(e) => {
            return Err(e);
        },
    };
    Ok((pair, UserResponse::from(u)))
}

/// Registration: create the user record (hashing the password) and issue its
/// first session. The caller persists the returned record. The only possible
/// failure is the salted hash's entropy draw; nothing is recorded then.
pub fn register(ledger: &mut TokenLedger, key: &Vec<u8>, payload: RegisterUserPayload, now: u64) -> (r:
    Result<(User, TokenPair), AuthError>)
    requires
        now + REFRESH_TOKEN_TTL_SECS <= u64::MAX,
    ensures
        r matches Ok(o) ==> ({
            &&& o.0.email == payload.email
            &&& bcrypt_matches(payload.pass@, o.0.pass@)
            &&& o.0.pass@.len() == 60
            &&& o.0.pass@[0] == '$'
            &&& o.0.role == Role::User
            &&& o.0.active
            &&& !o.0.verified
            &&& o.0.given_name == payload.given_name
            &&& o.0.family_name == payload.family_name
            &&& o.0.created_at == now
            &&& o.0.id@.len() == 24
            &&& session_issued(key@, o.0.id@, now as int, old(ledger)@, final(ledger)@, o.1)
        }),
        r matches Err(e) ==> e == AuthError::InternalError && final(ledger)@ == old(ledger)@,
{
    let user = match User::new(payload.email, payload.pass, payload.given_name, payload.family_name, now) {
        Ok(u) => u,
        Err(_) => {
            return Err(AuthError::InternalError);
        },
    };
    let pair = match issue_session(ledger, key, &user.id, now) {
        Ok(p) => p,
        Err(e) => {
            return Err(e);
        },
    };
    Ok((user, pair))
}

/// Logout: the presented refresh token names the subject, and every ledger
/// entry of that subject is blacklisted (full session revocation). Returns
/// the revoked subject so the transport layer can clear its credentials.
pub fn logout(ledger: &mut TokenLedger, key: &Vec<u8>, refresh: Option<&String>, now: u64) -> (r:
    Result<String, AuthError>)
    ensures
        refresh is None ==> ((r matches Err(e) && e == AuthError::MissingToken) && final(ledger)@
            == old(ledger)@),
        refresh matches Some(t) ==> (match jwt_claims_of(key@, t@) {
            None => r == Err::<String, AuthError>(AuthError::InvalidToken) && final(ledger)@ == old(
                ledger,
            )@,
            Some(rc) => if rc.exp <= now {
                r == Err::<String, AuthError>(AuthError::InvalidToken) && final(ledger)@ == old(
                    ledger,
                )@
            } else {
                (r matches Ok(sub) && sub@ == rc.sub) && final(ledger)@ == blacklist_uid_spec(
                    old(ledger)@,
                    rc.sub,
                )
            },
        }),
{
    let rt = match RefreshToken::parse(key, refresh, now) {
        Ok(rt) => rt,
        Err(e) => {
            return Err(e);
        },
    };
    ledger.blacklist_all(&rt.claims.sub);
    Ok(rt.claims.sub)
}

} // verus!
