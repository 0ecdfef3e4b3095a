//! Token issuer: access and refresh claims, signing and decoding.
//!
//! Tokens are HMAC-signed JWTs. Signing is deterministic in the key and the
//! claims, so the token string and the claims recovered from a token string
//! are given names (`jwt_of`, `jwt_claims_of`) that the trusted signing and
//! decoding functions relate; everything else is proved from those names.
//! Expiry is checked here, in verified code, against a caller-supplied clock
//! reading, so decoding itself stays a pure function of key and token.

use vstd::prelude::*;

use crate::errors::AuthError;
use crate::util::generate_jti;

verus! {

/// Lifetime of an access token, in seconds.
pub const ACCESS_TOKEN_TTL_SECS: u64 = 60;

/// Default lifetime of a refresh token, in seconds.
pub const REFRESH_TOKEN_TTL_SECS: u64 = 3600;

/// Mathematical content of a set of token claims.
pub ghost struct ClaimsView {
    pub sub: Seq<char>,
    pub exp: int,
    pub iat: int,
    pub jti: Seq<char>,
}

/// Claims carried by a short-lived access token: subject (user id), expiry,
/// issued-at, and a unique token id used as the revocation key.
pub struct AccessClaims {
    pub sub: String,
    pub exp: u64,
    pub iat: u64,
    pub jti: String,
}

impl View for AccessClaims {
    type V = ClaimsView;

    open spec fn view(&self) -> ClaimsView {
        ClaimsView { sub: self.sub@, exp: self.exp as int, iat: self.iat as int, jti: self.jti@ }
    }
}

impl Clone for AccessClaims {
    fn clone(&self) -> (r: Self)
        ensures
            r == *self,
    {
        AccessClaims {
            sub: self.sub.clone(),
            exp: self.exp,
            iat: self.iat,
            jti: self.jti.clone(),
        }
    }
}

impl AccessClaims {
    /// Fresh access claims for `sub`, issued at `now`, expiring after the
    /// fixed access-token lifetime, with a random jti.
    pub fn new(sub: &String, now: u64) -> (r: Self)
        requires
            now + ACCESS_TOKEN_TTL_SECS <= u64::MAX,
        ensures
            r.sub == *sub,
            r.iat == now,
            r.exp == now + ACCESS_TOKEN_TTL_SECS,
            r.jti@.len() == 36,
    {
        AccessClaims { sub: sub.clone(), iat: now, exp: now + ACCESS_TOKEN_TTL_SECS, jti: generate_jti() }
    }
}

/// Claims carried by a longer-lived refresh token; same shape as access
/// claims, used only to mint a new access/refresh pair.
pub struct RefreshClaims {
    pub sub: String,
    pub exp: u64,
    pub iat: u64,
    pub jti: String,
}

impl View for RefreshClaims {
    type V = ClaimsView;

    open spec fn view(&self) -> ClaimsView {
        ClaimsView { sub: self.sub@, exp: self.exp as int, iat: self.iat as int, jti: self.jti@ }
    }
}

impl RefreshClaims {
    /// Fresh refresh claims for `sub`, issued at `now`. An explicit expiry
    /// preserves the lifetime of an earlier refresh token during rotation;
    /// without one, the fixed refresh-token lifetime applies.
    pub fn new(sub: &String, exp: Option<u64>, now: u64) -> (r: Self)
        requires
            exp is None ==> now + REFRESH_TOKEN_TTL_SECS <= u64::MAX,
        ensures
            r.sub == *sub,
            r.iat == now,
            r.exp == (match exp {
                Some(e) => e,
                None => (now + REFRESH_TOKEN_TTL_SECS) as u64,
            }),
            r.jti@.len() == 36,
    {
        let e = match exp {
            Some(e) => e,
            None => now + REFRESH_TOKEN_TTL_SECS,
        };
        RefreshClaims { sub: sub.clone(), iat: now, exp: e, jti: generate_jti() }
    }
}

/// The signed token produced for claims `claims` under HMAC key `key`.
/// Signing with a fixed header and key is deterministic in its arguments.
pub uninterp spec fn jwt_of(key: Seq<u8>, claims: ClaimsView) -> Seq<char>;

/// The claims recovered from `token` under `key`: `Some` exactly when the
/// token's signature verifies under this crate's decoding discipline and the
/// four claim fields are present (an unexpected audience claim is refused),
/// ignoring expiry.
pub uninterp spec fn jwt_claims_of(key: Seq<u8>, token: Seq<char>) -> Option<ClaimsView>;

/// Relies on jsonwebtoken::encode with the default (HS256) header: signs the
/// claims object under the HMAC secret. Signing with an HMAC key cannot fail
/// — the key family matches the header's algorithm, serializing these claims
/// is total, and the HMAC itself is total — so a token is always produced.
/// What is produced decodes back to the same claims under the same key, which
/// is what the crate exists to do.
#[verifier::external_body]
fn sign_claims(key: &Vec<u8>, sub: &String, iat: u64, exp: u64, jti: &String) -> (r: Option<String>)
    ensures
        r is Some,
        r matches Some(t) ==> ({
            let c = (ClaimsView { sub: sub@, exp: exp as int, iat: iat as int, jti: jti@ });
            &&& t@ == jwt_of(key@, c)
            &&& jwt_claims_of(key@, t@) == Some(c)
        }),
{
    let k = jsonwebtoken::EncodingKey::from_secret(key.as_slice());
    let mut m = serde_json::Map::new();
    m.insert("sub".to_string(), serde_json::Value::String(sub.clone()));
    m.insert("iat".to_string(), serde_json::Value::from(iat));
    m.insert("exp".to_string(), serde_json::Value::from(exp));
    m.insert("jti".to_string(), serde_json::Value::String(jti.clone()));
    jsonwebtoken::encode(&jsonwebtoken::Header::default(), &serde_json::Value::Object(m), &k).ok()
}

/// Relies on jsonwebtoken::decode with HS256 and expiry validation switched
/// off: verifies the signature and recovers the claims fields `(sub, iat,
/// exp, jti)`, a pure function of key and token. Expiry is checked by the
/// callers, in verified code.
#[verifier::external_body]
fn decode_claims(key: &Vec<u8>, token: &String) -> (r: Option<(String, u64, u64, String)>)
    ensures
        r matches Some(t) ==> jwt_claims_of(key@, token@) == Some(
            (ClaimsView { sub: t.0@, exp: t.2 as int, iat: t.1 as int, jti: t.3@ }),
        ),
        r is None ==> jwt_claims_of(key@, token@) is None,
{
    let dk = jsonwebtoken::DecodingKey::from_secret(key.as_slice());
    let mut v = jsonwebtoken::Validation::default();
    v.validate_exp = false;
    v.required_spec_claims = std::collections::HashSet::new();
    let d = jsonwebtoken::decode::<serde_json::Value>(token.as_str(), &dk, &v).ok()?.claims;
    Some((
        d.get("sub")?.as_str()?.to_string(),
        d.get("iat")?.as_u64()?,
        d.get("exp")?.as_u64()?,
        d.get("jti")?.as_str()?.to_string(),
    ))
}

/// A signed access token together with its decoded claims and whether it was
/// already expired when extracted.
pub struct AccessToken {
    pub token: String,
    pub claims: AccessClaims,
    pub expired: bool,
}

impl AccessToken {
    /// Mint and sign a fresh access token for `sub` at time `now`. Signing
    /// under an HMAC key cannot fail, so minting always succeeds.
    pub fn new(key: &Vec<u8>, sub: &String, now: u64) -> (r: Result<Self, AuthError>)
        requires
            now + ACCESS_TOKEN_TTL_SECS <= u64::MAX,
        ensures
            r is Ok,
            r matches Ok(t) ==> ({
                &&& t.claims.sub == *sub
                &&& t.claims.iat == now
                &&& t.claims.exp == now + ACCESS_TOKEN_TTL_SECS
                &&& t.claims.jti@.len() == 36
                &&& !t.expired
                &&& t.token@ == jwt_of(key@, t.claims@)
                &&& jwt_claims_of(key@, t.token@) == Some(t.claims@)
            }),
    {
        let claims = AccessClaims::new(sub, now);
        match sign_claims(key, &claims.sub, claims.iat, claims.exp, &claims.jti) {
            Some(token) => Ok(AccessToken { token, claims, expired: false }),
            None => Err(AuthError::InternalError),
        }
    }

    /// Decode and check an access token extracted from the transport
    /// credential. A missing credential and a token that fails signature
    /// verification are rejected; a validly signed but expired token is
    /// still returned, marked `expired`, so the session middleware can read
    /// its subject without trusting it for authorization.
    pub fn parse(key: &Vec<u8>, token: Option<&String>, now: u64) -> (r: Result<Self, AuthError>)
        ensures
            token is None ==> (r matches Err(e) && e == AuthError::MissingToken),
            token matches Some(t) ==> (jwt_claims_of(key@, t@) is None ==> (r matches Err(e)
                && e == AuthError::InvalidToken)),
            token matches Some(t) ==> (jwt_claims_of(key@, t@) matches Some(c) ==> (r matches Ok(at)
                && at.claims@ == c && at.token@ == t@ && at.expired == (c.exp <= now))),
    {
        let t = match token {
            Some(t) => t,
            None => {
                return Err(AuthError::MissingToken);
            },
        };
        match decode_claims(key, t) {
            Some((sub, iat, exp, jti)) => Ok(
                AccessToken {
                    token: t.clone(),
                    expired: exp <= now,
                    claims: AccessClaims { sub, iat, exp, jti },
                },
            ),
            None => Err(AuthError::InvalidToken),
        }
    }
}

/// A signed refresh token together with its decoded claims.
pub struct RefreshToken {
    pub token: String,
    pub claims: RefreshClaims,
}

impl RefreshToken {
    /// Mint and sign a fresh refresh token for `sub` at time `now`,
    /// optionally inheriting an explicit expiry (see `RefreshClaims::new`).
    /// Signing under an HMAC key cannot fail, so minting always succeeds.
    pub fn new(key: &Vec<u8>, sub: &String, exp: Option<u64>, now: u64) -> (r: Result<
        Self,
        AuthError,
    >)
        requires
            exp is None ==> now + REFRESH_TOKEN_TTL_SECS <= u64::MAX,
        ensures
            r is Ok,
            r matches Ok(t) ==> ({
                &&& t.claims.sub == *sub
                &&& t.claims.iat == now
                &&& t.claims.exp == (match exp {
                    Some(e) => e,
                    None => (now + REFRESH_TOKEN_TTL_SECS) as u64,
                })
                &&& t.claims.jti@.len() == 36
                &&& t.token@ == jwt_of(key@, t.claims@)
                &&& jwt_claims_of(key@, t.token@) == Some(t.claims@)
            }),
    {
        let claims = RefreshClaims::new(sub, exp, now);
        match sign_claims(key, &claims.sub, claims.iat, claims.exp, &claims.jti) {
            Some(token) => Ok(RefreshToken { token, claims }),
            None => Err(AuthError::InternalError),
        }
    }

    /// Decode and check a refresh token extracted from the transport
    /// credential. Unlike an access token, an expired refresh token is of no
    /// further use and is rejected outright.
    pub fn parse(key: &Vec<u8>, token: Option<&String>, now: u64) -> (r: Result<Self, AuthError>)
        ensures
            token is None ==> (r matches Err(e) && e == AuthError::MissingToken),
            token matches Some(t) ==> (jwt_claims_of(key@, t@) is None ==> (r matches Err(e)
                && e == AuthError::InvalidToken)),
            token matches Some(t) ==> (jwt_claims_of(key@, t@) matches Some(c) ==> (c.exp <= now
                ==> (r matches Err(e) && e == AuthError::InvalidToken))),
            token matches Some(t) ==> (jwt_claims_of(key@, t@) matches Some(c) ==> (c.exp > now
                ==> (r matches Ok(rt) && rt.claims@ == c && rt.token@ == t@))),
    {
        let t = match token {
            Some(t) => t,
            None => {
                return Err(AuthError::MissingToken);
            },
        };
        match decode_claims(key, t) {
            Some((sub, iat, exp, jti)) => {
                if exp <= now {
                    Err(AuthError::InvalidToken)
                } else {
                    Ok(RefreshToken { token: t.clone(), claims: RefreshClaims { sub, iat, exp, jti } })
                }
            },
            None => Err(AuthError::InvalidToken),
        }
    }
}

} // verus!
