//! Transport credentials: the attributes of the cookies that carry tokens.
//!
//! The decisions live here — names, scope, expiry, and the same-site and
//! secure policy that varies by deployment environment; turning the computed
//! attributes into an actual Set-Cookie header is the transport layer's job.

use vstd::prelude::*;

use crate::claims::{AccessToken, RefreshToken};

verus! {

/// Same-site policy of a cookie.
#[derive(Clone, Copy, Debug, PartialEq, Eq, Structural)]
pub enum SameSitePolicy {
    Strict,
    Lax,
    /// Sent on cross-site requests too (requires the secure flag).
    CrossSite,
}

/// The attributes of one transport cookie.
pub struct CookieAttrs {
    pub name: String,
    pub value: String,
    pub path: String,
    pub expires: u64,
    pub http_only: bool,
    pub secure: bool,
    pub same_site: Option<SameSitePolicy>,
}

/// Environment-dependent policy: relaxed in development (`Lax`, plain HTTP
/// allowed), strict in production (`CrossSite` over HTTPS only), builder
/// defaults anywhere else.
pub open spec fn policy_of_env(environment: Seq<char>) -> (Option<SameSitePolicy>, bool) {
    if environment == "dev"@ {
        (Some(SameSitePolicy::Lax), false)
    } else if environment == "prod"@ {
        (Some(SameSitePolicy::CrossSite), true)
    } else {
        (None, false)
    }
}

fn env_policy(environment: &String) -> (r: (Option<SameSitePolicy>, bool))
    ensures
        r == policy_of_env(environment@),
{
    proof {
        reveal_strlit("dev");
        reveal_strlit("prod");
        assert("dev"@.len() == 3 && "prod"@.len() == 4);
    }
    if *environment == String::from_str("dev") {
        (Some(SameSitePolicy::Lax), false)
    } else if *environment == String::from_str("prod") {
        (Some(SameSitePolicy::CrossSite), true)
    } else {
        (None, false)
    }
}

/// The http-only cookie that carries an access token, expiring with it.
pub fn access_cookie(token: &AccessToken, environment: &String) -> (r: CookieAttrs)
    ensures
        r.name@ == "access"@,
        r.value == token.token,
        r.path@ == "/"@,
        r.expires == token.claims.exp,
        r.http_only,
        (r.same_site, r.secure) == policy_of_env(environment@),
{
    let (same_site, secure) = env_policy(environment);
    CookieAttrs {
        name: String::from_str("access"),
        value: token.token.clone(),
        path: String::from_str("/"),
        expires: token.claims.exp,
        http_only: true,
        secure,
        same_site,
    }
}

/// The http-only cookie that carries a refresh token, expiring with it.
pub fn refresh_cookie(token: &RefreshToken, environment: &String) -> (r: CookieAttrs)
    ensures
        r.name@ == "refresh"@,
        r.value == token.token,
        r.path@ == "/"@,
        r.expires == token.claims.exp,
        r.http_only,
        (r.same_site, r.secure) == policy_of_env(environment@),
{
    let (same_site, secure) = env_policy(environment);
    CookieAttrs {
        name: String::from_str("refresh"),
        value: token.token.clone(),
        path: String::from_str("/"),
        expires: token.claims.exp,
        http_only: true,
        secure,
        same_site,
    }
}

/// The script-visible marker cookie that tells the client a refresh
/// credential exists, expiring with the refresh token.
pub fn refresh_check_cookie(expires: u64) -> (r: CookieAttrs)
    ensures
        r.name@ == "refresh-check"@,
        r.value@ == "1"@,
        r.path@ == "/"@,
        r.expires == expires,
        !r.http_only,
        !r.secure,
        r.same_site == Some(SameSitePolicy::Lax),
{
    CookieAttrs {
        name: String::from_str("refresh-check"),
        value: String::from_str("1"),
        path: String::from_str("/"),
        expires,
        http_only: false,
        secure: false,
        same_site: Some(SameSitePolicy::Lax),
    }
}

/// Seconds in a week.
pub const WEEK_SECS: u64 = 604800;

/// The expiry stamped on a cleared cookie at logout: a week in the past, so
/// every client discards it (clamped at the epoch).
pub fn revoked_expiry(now: u64) -> (r: u64)
    ensures
        r == (if now >= WEEK_SECS {
            (now - WEEK_SECS) as u64
        } else {
            0u64
        }),
{
    if now >= WEEK_SECS {
        now - WEEK_SECS
    } else {
        0
    }
}

} // verus!
