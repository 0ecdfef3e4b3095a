//! OAuth bridge: verification of third-party identity tokens against the
//! provider's published signing keys, and mapping of the verified identity to
//! a local user record.
//!
//! The signing-key set is fetched over the network by the caller and cached;
//! the staleness decision, the `max-age` parse of the caching directive, the
//! key selection by key id and the claims checks are all verified here.

use vstd::prelude::*;

use crate::claims::REFRESH_TOKEN_TTL_SECS;
use crate::errors::{AppError, AuthError};
use crate::ledger::{TokenEntryView, TokenLedger};
use crate::session::{session_issued, TokenPair};
use crate::users::{Role, User};

verus! {

/// One signing key of the identity provider, as published in its JWK set:
/// key id and RSA modulus and exponent (base64url).
pub struct GoogleCert {
    pub kid: String,
    pub n: String,
    pub e: String,
}

impl Clone for GoogleCert {
    fn clone(&self) -> (r: Self)
        ensures
            r == *self,
    {
        GoogleCert { kid: self.kid.clone(), n: self.n.clone(), e: self.e.clone() }
    }
}

/// The provider's published key set.
pub struct GoogleCertsResponse {
    pub keys: Vec<GoogleCert>,
}

/// The process-wide signing-key cache: the key set last fetched, if any, and
/// the absolute expiry derived from the response's caching directive. The
/// shared-ownership lock around it is the caller's concern; this is the value
/// swapped under that lock.
pub struct GoogleCerts {
    pub exp: Option<u64>,
    pub certs: Option<GoogleCertsResponse>,
}

/// Whether the cache can serve a request at time `now`: populated, carrying
/// an expiry, and not yet expired. Anything else forces a fresh fetch.
pub fn certs_usable(cache: &GoogleCerts, now: u64) -> (r: bool)
    ensures
        r == (cache.certs is Some && (cache.exp matches Some(e) && e > now)),
{
    match (&cache.certs, &cache.exp) {
        (Some(_), Some(e)) => *e > now,
        _ => false,
    }
}

/// Whether a byte is an ASCII digit.
pub open spec fn is_digit(b: u8) -> bool {
    48 <= b <= 57
}

/// Whether the directive `max-age=` followed by at least one digit starts at
/// position `i` (the eight pattern bytes spell `max-age=`).
pub open spec fn match_at(s: Seq<u8>, i: int) -> bool {
    &&& 0 <= i
    &&& i + 8 < s.len()
    &&& s[i] == 109u8
    &&& s[i + 1] == 97u8
    &&& s[i + 2] == 120u8
    &&& s[i + 3] == 45u8
    &&& s[i + 4] == 97u8
    &&& s[i + 5] == 103u8
    &&& s[i + 6] == 101u8
    &&& s[i + 7] == 61u8
    &&& is_digit(s[i + 8])
}

/// The first position at or after `i` where the directive matches.
pub open spec fn first_match_from(s: Seq<u8>, i: int) -> Option<int>
    decreases (if i <= s.len() { s.len() - i } else { 0 }),
{
    if i < 0 || i + 8 >= s.len() {
        None
    } else if match_at(s, i) {
        Some(i)
    } else {
        first_match_from(s, i + 1)
    }
}

/// The first position at or after `i` that does not hold a digit.
pub open spec fn digit_run_end(s: Seq<u8>, i: int) -> int
    decreases (if 0 <= i <= s.len() { s.len() - i } else { 0 }),
{
    if i < 0 || i >= s.len() {
        i
    } else if !is_digit(s[i]) {
        i
    } else {
        digit_run_end(s, i + 1)
    }
}

/// The number spelled by the digits at positions `i` (inclusive) to `e`
/// (exclusive).
pub open spec fn digits_value(s: Seq<u8>, i: int, e: int) -> int
    decreases (if i <= e { e - i } else { 0 }),
{
    if i >= e {
        0
    } else {
        digits_value(s, i, e - 1) * 10 + (s[e - 1] - 48)
    }
}

/// What the caching-directive parse returns: the value of the maximal digit
/// run after the first `max-age=` occurrence that is followed by a digit, or
/// nothing when there is no such occurrence or the value does not fit the
/// return type.
pub open spec fn parse_max_age_spec(s: Seq<u8>) -> Option<u64> {
    match first_match_from(s, 0) {
        None => None,
        Some(m) => {
            let v = digits_value(s, m + 8, digit_run_end(s, m + 8));
            if v <= u64::MAX {
                Some(v as u64)
            } else {
                None
            }
        },
    }
}

proof fn lemma_first_match_step(s: Seq<u8>, i: int)
    requires
        0 <= i,
        !match_at(s, i),
    ensures
        first_match_from(s, i) == first_match_from(s, i + 1),
{
}

/// A digit run whose value has outgrown u64 only grows further.
proof fn lemma_digits_value_grows(s: Seq<u8>, i: int, e: int)
    requires
        i <= e,
        digits_value(s, i, e) > u64::MAX,
    ensures
        digits_value(s, i, e + 1) > u64::MAX,
{
}

/// The scan that stops at the first non-digit computes `digit_run_end`.
proof fn lemma_digit_run_end(s: Seq<u8>, i: int, e: int)
    requires
        0 <= i <= e <= s.len(),
        forall|k: int| i <= k < e ==> is_digit(#[trigger] s[k]),
        e == s.len() || !is_digit(s[e]),
    ensures
        digit_run_end(s, i) == e,
    decreases e - i,
{
    if i < e {
        lemma_digit_run_end(s, i + 1, e);
    }
}

/// Parse the `max-age` value (in seconds) out of a cache-control style
/// header, as the identity provider sends it: the first occurrence of
/// `max-age=` immediately followed by digits decides; a value too large for
/// the return type counts as absent.
pub fn parse_max_age(header: &Vec<u8>) -> (r: Option<u64>)
    ensures
        r == parse_max_age_spec(header@),
{
    let n = header.len();
    if n < 9 {
        return None;
    }
    let mut i: usize = 0;
    while i <= n - 9
        invariant
            n == header@.len(),
            9 <= n,
            i <= n - 8,
            first_match_from(header@, 0) == first_match_from(header@, i as int),
        decreases n - i,
    {
        let found = header[i] == 109 && header[i + 1] == 97 && header[i + 2] == 120 && header[i + 3]
            == 45 && header[i + 4] == 97 && header[i + 5] == 103 && header[i + 6] == 101 && header[i
            + 7] == 61 && 48 <= header[i + 8] && header[i + 8] <= 57;
        if found {
            assert(match_at(header@, i as int));
            assert(first_match_from(header@, i as int) == Some(i as int));
            let start = i + 8;
            let mut e = start;
            let mut val: u64 = 0;
            let mut overflow = false;
            while e < n && 48 <= header[e] && header[e] <= 57
                invariant
                    n == header@.len(),
                    start <= e <= n,
                    forall|k: int| start <= k < e ==> is_digit(#[trigger] header@[k]),
                    !overflow ==> val == digits_value(header@, start as int, e as int),
                    overflow ==> digits_value(header@, start as int, e as int) > u64::MAX,
                decreases n - e,
            {
                let d = header[e] - 48;
                proof {
                    assert(digits_value(header@, start as int, e + 1) == digits_value(
                        header@,
                        start as int,
                        e as int,
                    ) * 10 + d);
                }
                if !overflow {
                    if val > (u64::MAX - d as u64) / 10 {
                        overflow = true;
                    } else {
                        val = val * 10 + d as u64;
                    }
                } else {
                    proof {
                        lemma_digits_value_grows(header@, start as int, e as int);
                    }
                }
                e = e + 1;
            }
            proof {
                lemma_digit_run_end(header@, start as int, e as int);
            }
            if overflow {
                return None;
            }
            return Some(val);
        }
        proof {
            lemma_first_match_step(header@, i as int);
        }
        i = i + 1;
    }
    None
}

/// The absolute cache expiry derived from a fetch at `now` with lifetime
/// `max_age` seconds, when it fits the clock's type.
pub fn cache_expiry(now: u64, max_age: u64) -> (r: Option<u64>)
    ensures
        max_age <= u64::MAX - now ==> r == Some((now + max_age) as u64),
        max_age > u64::MAX - now ==> r is None,
{
    if max_age <= u64::MAX - now {
        Some(now + max_age)
    } else {
        None
    }
}

/// The first published key carrying `kid`, if any.
pub open spec fn find_cert_spec(keys: Seq<GoogleCert>, kid: Seq<char>) -> Option<GoogleCert>
    decreases keys.len(),
{
    if keys.len() == 0 {
        None
    } else if keys[0].kid@ == kid {
        Some(keys[0])
    } else {
        find_cert_spec(keys.drop_first(), kid)
    }
}

proof fn lemma_find_cert_first(keys: Seq<GoogleCert>, kid: Seq<char>, i: int)
    requires
        0 <= i < keys.len(),
        keys[i].kid@ == kid,
        forall|j: int| 0 <= j < i ==> (#[trigger] keys[j]).kid@ != kid,
    ensures
        find_cert_spec(keys, kid) == Some(keys[i]),
    decreases i,
{
    if i > 0 {
        assert(keys.drop_first()[i - 1] == keys[i]);
        assert(forall|j: int| 0 <= j < i - 1 ==> (#[trigger] keys.drop_first()[j]) == keys[j + 1]);
        lemma_find_cert_first(keys.drop_first(), kid, i - 1);
    }
}

proof fn lemma_find_cert_none(keys: Seq<GoogleCert>, kid: Seq<char>)
    requires
        forall|j: int| 0 <= j < keys.len() ==> (#[trigger] keys[j]).kid@ != kid,
    ensures
        find_cert_spec(keys, kid) is None,
    decreases keys.len(),
{
    if keys.len() > 0 {
        assert(forall|j: int| 0 <= j < keys.len() - 1 ==> (#[trigger] keys.drop_first()[j])
            == keys[j + 1]);
        lemma_find_cert_none(keys.drop_first(), kid);
    }
}

/// Select the provider key named by a token's key id.
pub fn find_cert(keys: &Vec<GoogleCert>, kid: &String) -> (r: Option<GoogleCert>)
    ensures
        r matches Some(c) ==> find_cert_spec(keys@, kid@) == Some(c),
        r is None ==> find_cert_spec(keys@, kid@) is None,
{
    let n = keys.len();
    let mut i: usize = 0;
    while i < n
        invariant
            i <= n,
            n == keys@.len(),
            forall|j: int| 0 <= j < i ==> (#[trigger] keys@[j]).kid@ != kid@,
        decreases n - i,
    {
        if keys[i].kid == *kid {
            proof {
                lemma_find_cert_first(keys@, kid@, i as int);
            }
            return Some(keys[i].clone());
        }
        i = i + 1;
    }
    proof {
        lemma_find_cert_none(keys@, kid@);
    }
    None
}

/// Mathematical content of the identity claims the bridge reads.
pub ghost struct GoogleClaimsView {
    pub sub: Seq<char>,
    pub email: Seq<char>,
    pub given_name: Seq<char>,
    pub family_name: Seq<char>,
    pub exp: int,
}

/// The identity claims the bridge reads from a verified provider token:
/// subject, email, profile names and expiry.
pub struct GoogleClaims {
    pub sub: String,
    pub email: String,
    pub given_name: String,
    pub family_name: String,
    pub exp: u64,
}

impl View for GoogleClaims {
    type V = GoogleClaimsView;

    open spec fn view(&self) -> GoogleClaimsView {
        GoogleClaimsView {
            sub: self.sub@,
            email: self.email@,
            given_name: self.given_name@,
            family_name: self.family_name@,
            exp: self.exp as int,
        }
    }
}

/// The key id named in a token's header: `Some` of the kid (or of the empty
/// string when the header carries none) for a structurally well-formed token,
/// `None` for a malformed one. A pure function of the token text.
pub uninterp spec fn jwt_kid_of(token: Seq<char>) -> Option<Seq<char>>;

/// The claims recovered from a provider token under the RSA key `(n, e)` and
/// expected audience `aud`: `Some` exactly when the signature verifies, the
/// audience matches, and the required claims are present, ignoring expiry.
pub uninterp spec fn google_claims_of(
    token: Seq<char>,
    n: Seq<char>,
    e: Seq<char>,
    aud: Seq<char>,
) -> Option<GoogleClaimsView>;

/// Relies on jsonwebtoken::decode_header: reads the unverified header of a
/// token to find which provider key signed it.
#[verifier::external_body]
fn decode_header_kid(jwt: &String) -> (r: Option<String>)
    ensures
        r matches Some(k) ==> jwt_kid_of(jwt@) == Some(k@),
        r is None ==> jwt_kid_of(jwt@) is None,
{
    match jsonwebtoken::decode_header(jwt.as_str()) {
        Ok(h) => match h.kid {
            Some(k) => Some(k),
            None => Some(String::new()),
        },
        Err(_) => None,
    }
}

/// Relies on jsonwebtoken::DecodingKey::from_rsa_components and
/// jsonwebtoken::decode with RS256, a required audience and required `exp`,
/// `sub` and `aud` claims, and expiry validation switched off: verifies the
/// provider token and extracts the claims the bridge reads, a pure function
/// of token, key components and audience. Expiry is checked by the caller,
/// in verified code.
#[verifier::external_body]
fn decode_google_jwt(jwt: &String, n: &String, e: &String, aud: &String) -> (r: Option<GoogleClaims>)
    ensures
        r matches Some(c) ==> google_claims_of(jwt@, n@, e@, aud@) == Some(c@),
        r is None ==> google_claims_of(jwt@, n@, e@, aud@) is None,
{
    let dk = jsonwebtoken::DecodingKey::from_rsa_components(n.as_str(), e.as_str()).ok()?;
    let mut v = jsonwebtoken::Validation::new(jsonwebtoken::Algorithm::RS256);
    v.set_audience(&[aud.as_str()]);
    v.set_required_spec_claims(&["exp", "sub", "aud"]);
    v.validate_exp = false;
    let d = jsonwebtoken::decode::<serde_json::Value>(jwt.as_str(), &dk, &v).ok()?.claims;
    Some(GoogleClaims {
        sub: d.get("sub")?.as_str()?.to_string(),
        email: d.get("email")?.as_str()?.to_string(),
        given_name: d.get("given_name")?.as_str()?.to_string(),
        family_name: d.get("family_name")?.as_str()?.to_string(),
        exp: d.get("exp")?.as_u64()?,
    })
}

/// The identity claims that full verification of `jwt` against the key set
/// yields at time `now`: key selection by the header's kid, signature,
/// audience and required-claims checks, then the expiry check.
pub open spec fn verified_google_claims(
    jwt: Seq<char>,
    keys: Seq<GoogleCert>,
    aud: Seq<char>,
    now: int,
) -> Option<GoogleClaimsView> {
    match jwt_kid_of(jwt) {
        None => None,
        Some(kid) => match find_cert_spec(keys, kid) {
            None => None,
            Some(cert) => match google_claims_of(jwt, cert.n@, cert.e@, aud) {
                None => None,
                Some(g) => if g.exp <= now {
                    None
                } else {
                    Some(g)
                },
            },
        },
    }
}

/// Verify a provider identity token against the published key set. Failure
/// anywhere — header decode, key selection, signature, audience, required
/// claims, expiry — collapses to `InternalError`: no partial trust.
pub fn verify_google_token(jwt: &String, certs: &GoogleCertsResponse, aud: &String, now: u64) -> (r:
    Result<GoogleClaims, AuthError>)
    ensures
        verified_google_claims(jwt@, certs.keys@, aud@, now as int) matches Some(g) ==> (r matches
            Ok(c) && c@ == g),
        verified_google_claims(jwt@, certs.keys@, aud@, now as int) is None ==> r == Err::<
            GoogleClaims,
            AuthError,
        >(AuthError::InternalError),
{
    let kid = match decode_header_kid(jwt) {
        Some(k) => k,
        None => {
            return Err(AuthError::InternalError);
        },
    };
    let cert = match find_cert(&certs.keys, &kid) {
        Some(c) => c,
        None => {
            return Err(AuthError::InternalError);
        },
    };
    let claims = match decode_google_jwt(jwt, &cert.n, &cert.e, aud) {
        Some(c) => c,
        None => {
            return Err(AuthError::InternalError);
        },
    };
    if claims.exp <= now {
        return Err(AuthError::InternalError);
    }
    Ok(claims)
}

/// Map a verified identity onto a local user: an existing record is used as
/// is; otherwise a record is created from the identity's claims with the
/// supplied (randomly generated, never transmitted) password, of which only
/// its 60-character bcrypt hash is kept.
pub fn oauth_user(existing: Option<User>, claims: &GoogleClaims, password: String, now: u64) -> (r:
    Result<(User, bool), AppError>)
    ensures
        existing matches Some(u) ==> (r matches Ok(o) && o.0 == u && o.1 == false),
        existing is None ==> (match r {
            Ok(o) => {
                &&& o.1 == true
                &&& o.0.email == claims.email
                &&& crate::credentials::bcrypt_matches(password@, o.0.pass@)
                &&& o.0.pass@.len() == 60
                &&& o.0.pass@[0] == '$'
                &&& o.0.given_name == claims.given_name
                &&& o.0.family_name == claims.family_name
                &&& o.0.role == Role::User
                &&& o.0.active
                &&& !o.0.verified
                &&& o.0.created_at == now
                &&& o.0.id@.len() == 24
            },
            Err(e) => e.code == 500,
        }),
{
    match existing {
        Some(u) => Ok((u, false)),
        None => match User::new(
            claims.email.clone(),
            password,
            claims.given_name.clone(),
            claims.family_name.clone(),
            now,
        ) {
            Ok(u) => Ok((u, true)),
            Err(e) => Err(e),
        },
    }
}

/// Full contract of an OAuth login, by case over the verification of the
/// identity token and the user record the persistence layer found for its
/// email. With an existing user nothing can fail; creating a missing user
/// hashes a fresh password, whose entropy draw is the one possible failure.
pub open spec fn oauth_post(
    key: Seq<u8>,
    jwt: Seq<char>,
    keys: Seq<GoogleCert>,
    aud: Seq<char>,
    existing: Option<User>,
    now: int,
    old_l: Seq<TokenEntryView>,
    new_l: Seq<TokenEntryView>,
    r: Result<(User, bool, TokenPair), AuthError>,
) -> bool {
    match verified_google_claims(jwt, keys, aud, now) {
        None => r == Err::<(User, bool, TokenPair), AuthError>(AuthError::InternalError) && new_l
            == old_l,
        Some(g) => match existing {
            Some(u) => match r {
                Ok(o) => {
                    &&& o.0 == u
                    &&& o.1 == false
                    &&& session_issued(key, o.0.id@, now, old_l, new_l, o.2)
                },
                Err(_) => false,
            },
            None => match r {
                Ok(o) => {
                    &&& o.1 == true
                    &&& o.0.email@ == g.email
                    &&& o.0.given_name@ == g.given_name
                    &&& o.0.family_name@ == g.family_name
                    &&& o.0.role == Role::User
                    &&& o.0.active
                    &&& !o.0.verified
                    &&& o.0.created_at == now
                    &&& o.0.id@.len() == 24
                    &&& session_issued(key, o.0.id@, now, old_l, new_l, o.2)
                },
                Err(e) => e == AuthError::InternalError && new_l == old_l,
            },
        },
    }
}

/// OAuth login: verify the identity token against the key set, map the
/// identity onto a local user (`existing` is what the persistence layer found
/// for the identity's email; a missing record is created with a random
/// 20-character password), and issue and record the same session pair the
/// password flow issues; for an existing user this always succeeds. The
/// caller persists the user record when `created` is reported.
pub fn oauth_login(
    ledger: &mut TokenLedger,
    key: &Vec<u8>,
    jwt: &String,
    certs: &GoogleCertsResponse,
    aud: &String,
    existing: Option<User>,
    now: u64,
) -> (r: Result<(User, bool, TokenPair), AuthError>)
    requires
        now + REFRESH_TOKEN_TTL_SECS <= u64::MAX,
    ensures
        oauth_post(
            key@,
            jwt@,
            certs.keys@,
            aud@,
            existing,
            now as int,
            old(ledger)@,
            final(ledger)@,
            r,
        ),
{
    let claims = match verify_google_token(jwt, certs, aud, now) {
        Ok(c) => c,
        Err(e) => {
            return Err(e);
        },
    };
    let password = crate::util::generate_password(20);
    let (user, created) = match oauth_user(existing, &claims, password, now) {
        Ok(o) => o,
        Err(_) => {
            return Err(AuthError::InternalError);
        },
    };
    let pair = match crate::auth::issue_session(ledger, key, &user.id, now) {
        Ok(p) => p,
        Err(e) => {
            return Err(e);
        },
    };
    Ok((user, created, pair))
}

} // verus!
