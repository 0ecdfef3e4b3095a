//! Session middleware: the per-request state machine.
//!
//! Each authenticated request presents an access token and possibly a refresh
//! token. The access token is verified first; if it is validly signed but
//! expired, the refresh token is used to rotate: the old refresh jti is
//! consumed (blacklisted), a new access/refresh pair is minted and recorded,
//! and the request proceeds under the new claims. Reuse of a consumed refresh
//! token is treated as a compromise signal: every ledger entry of that
//! subject is blacklisted and the request is rejected.

use vstd::prelude::*;

use crate::claims::{
    jwt_claims_of, jwt_of, AccessClaims, AccessToken, ClaimsView, RefreshToken,
    ACCESS_TOKEN_TTL_SECS, REFRESH_TOKEN_TTL_SECS,
};
use crate::errors::AuthError;
use crate::ledger::{
    blacklist_jti_spec, blacklist_uid_spec, find_jti, is_blacklisted, lemma_find_jti_blacklist_jti,
    lemma_find_jti_blacklist_uid, lemma_find_jti_found, lemma_find_jti_push, TokenDB,
    TokenEntryView, TokenLedger,
};

verus! {

/// The state a request's credentials land in.
#[derive(Clone, Copy, Debug, PartialEq, Eq, Structural)]
pub enum SessionState {
    /// No access credential was presented.
    NoCredential,
    /// The access token is validly signed, unexpired and not blacklisted.
    AccessValid,
    /// The access token expired, and the refresh token admits rotation.
    AccessExpiredRefreshValid,
    /// The access token expired, and the refresh token is missing, invalid,
    /// expired, or bound to a different subject.
    AccessExpiredRefreshInvalid,
    /// The request is rejected: a bad signature, a blacklisted access token,
    /// or a replayed refresh token.
    Rejected,
}

/// How a presented refresh token relates to the ledger.
#[derive(Clone, Copy, Debug, PartialEq, Eq, Structural)]
pub enum RefreshUse {
    /// No entry recorded: acceptable first use (permissive default).
    FirstUse,
    /// Recorded and not yet consumed: the normal single-use rotation.
    SingleUse,
    /// Recorded and already consumed: replay detected.
    Replay,
}

/// The ledger's verdict on a refresh jti.
pub open spec fn refresh_use_of(l: Seq<TokenEntryView>, jti: Seq<char>) -> RefreshUse {
    match find_jti(l, jti) {
        None => RefreshUse::FirstUse,
        Some(e) => if e.black {
            RefreshUse::Replay
        } else {
            RefreshUse::SingleUse
        },
    }
}

/// The ledger's verdict on an unexpired access jti: `Forbidden` exactly when
/// the jti is recorded and blacklisted.
pub open spec fn access_check_of(l: Seq<TokenEntryView>, jti: Seq<char>) -> Result<(), AuthError> {
    if is_blacklisted(l, jti) {
        Err(AuthError::Forbidden)
    } else {
        Ok(())
    }
}

/// View of an optional transport credential.
pub open spec fn opt_token_view(t: Option<&String>) -> Option<Seq<char>> {
    match t {
        Some(s) => Some(s@),
        None => None,
    }
}

/// Claims recovered from an optional refresh credential.
pub open spec fn refresh_claims_of(key: Seq<u8>, refresh: Option<Seq<char>>) -> Option<ClaimsView> {
    match refresh {
        None => None,
        Some(rt) => jwt_claims_of(key, rt),
    }
}

/// The state a request with the given credentials reaches against the given
/// ledger. `Rejected` covers a bad access signature, a blacklisted access
/// token, and a replayed refresh token.
pub open spec fn session_state_of(
    key: Seq<u8>,
    access: Option<Seq<char>>,
    refresh: Option<Seq<char>>,
    now: int,
    ledger: Seq<TokenEntryView>,
) -> SessionState {
    match access {
        None => SessionState::NoCredential,
        Some(at) => match jwt_claims_of(key, at) {
            None => SessionState::Rejected,
            Some(c) => if c.exp > now {
                if is_blacklisted(ledger, c.jti) {
                    SessionState::Rejected
                } else {
                    SessionState::AccessValid
                }
            } else {
                match refresh_claims_of(key, refresh) {
                    None => SessionState::AccessExpiredRefreshInvalid,
                    Some(rc) => if rc.sub != c.sub || rc.exp <= now {
                        SessionState::AccessExpiredRefreshInvalid
                    } else if refresh_use_of(ledger, rc.jti) is Replay {
                        SessionState::Rejected
                    } else {
                        SessionState::AccessExpiredRefreshValid
                    },
                }
            },
        },
    }
}

/// A freshly issued access/refresh pair.
pub struct TokenPair {
    pub access: AccessToken,
    pub refresh: RefreshToken,
}

/// What a successful pass through the middleware yields: the claims the
/// request proceeds under, and the new credentials when rotation happened.
pub struct SessionOutcome {
    pub claims: AccessClaims,
    pub issued: Option<TokenPair>,
}

/// The ledger entry recorded for a token with claims `c`.
pub open spec fn entry_of_claims(c: ClaimsView) -> TokenEntryView {
    TokenEntryView { uid: c.sub, jti: c.jti, exp: c.exp, black: false }
}

/// What a freshly issued pair for subject `sub` looks like: both tokens are
/// signed for `sub` at `now`, the access token lives for the fixed access
/// lifetime, the refresh token until `refresh_exp`, both carry fresh 36
/// character jtis, and both decode back to their own claims under `key`.
pub open spec fn pair_for(
    key: Seq<u8>,
    sub: Seq<char>,
    now: int,
    refresh_exp: int,
    p: TokenPair,
) -> bool {
    let ac = p.access.claims@;
    let fc = p.refresh.claims@;
    &&& ac.sub == sub
    &&& ac.iat == now
    &&& ac.exp == now + ACCESS_TOKEN_TTL_SECS
    &&& fc.sub == sub
    &&& fc.iat == now
    &&& fc.exp == refresh_exp
    &&& ac.jti.len() == 36
    &&& fc.jti.len() == 36
    &&& !p.access.expired
    &&& p.access.token@ == jwt_of(key, ac)
    &&& jwt_claims_of(key, p.access.token@) == Some(ac)
    &&& p.refresh.token@ == jwt_of(key, fc)
    &&& jwt_claims_of(key, p.refresh.token@) == Some(fc)
}

/// What a first issuance for subject `sub` at time `now` leaves behind: a
/// fresh pair with the default refresh lifetime, and the two ledger entries
/// recorded, access first.
pub open spec fn session_issued(
    key: Seq<u8>,
    sub: Seq<char>,
    now: int,
    old_l: Seq<TokenEntryView>,
    new_l: Seq<TokenEntryView>,
    p: TokenPair,
) -> bool {
    &&& pair_for(key, sub, now, now + REFRESH_TOKEN_TTL_SECS, p)
    &&& new_l == old_l.push(entry_of_claims(p.access.claims@)).push(
        entry_of_claims(p.refresh.claims@),
    )
}

/// What rotation guarantees: a fresh pair for the same subject, the access
/// lifetime restarted, the refresh expiry inherited from the consumed token,
/// the consumed jti blacklisted and both new jtis recorded. Rotation cannot
/// fail: signing under the HMAC key is total.
pub open spec fn rotation_post(
    old_l: Seq<TokenEntryView>,
    new_l: Seq<TokenEntryView>,
    key: Seq<u8>,
    rc: ClaimsView,
    now: int,
    r: Result<SessionOutcome, AuthError>,
) -> bool {
    match r {
        Ok(o) => match o.issued {
            Some(pair) => {
                &&& o.claims == pair.access.claims
                &&& pair_for(key, rc.sub, now, rc.exp, pair)
                &&& new_l == blacklist_jti_spec(old_l, rc.jti).push(
                    entry_of_claims(pair.refresh.claims@),
                ).push(entry_of_claims(pair.access.claims@))
            },
            None => false,
        },
        Err(_) => false,
    }
}

/// Full contract of one pass through the middleware, by case over the
/// credentials, the clock and the ledger.
pub open spec fn authenticate_post(
    key: Seq<u8>,
    access: Option<Seq<char>>,
    refresh: Option<Seq<char>>,
    now: int,
    old_l: Seq<TokenEntryView>,
    new_l: Seq<TokenEntryView>,
    r: Result<SessionOutcome, AuthError>,
) -> bool {
    match access {
        None => r == Err::<SessionOutcome, AuthError>(AuthError::MissingToken) && new_l == old_l,
        Some(at) => match jwt_claims_of(key, at) {
            None => r == Err::<SessionOutcome, AuthError>(AuthError::InvalidToken) && new_l
                == old_l,
            Some(c) => if c.exp > now {
                if is_blacklisted(old_l, c.jti) {
                    r == Err::<SessionOutcome, AuthError>(AuthError::Forbidden) && new_l == old_l
                } else {
                    new_l == old_l && match r {
                        Ok(o) => o.claims@ == c && o.issued is None,
                        Err(_) => false,
                    }
                }
            } else {
                match refresh_claims_of(key, refresh) {
                    None => r == Err::<SessionOutcome, AuthError>(AuthError::InvalidToken) && new_l
                        == old_l,
                    Some(rc) => if rc.sub != c.sub || rc.exp <= now {
                        r == Err::<SessionOutcome, AuthError>(AuthError::InvalidToken) && new_l
                            == old_l
                    } else if is_blacklisted(old_l, rc.jti) {
                        r == Err::<SessionOutcome, AuthError>(AuthError::Forbidden) && new_l
                            == blacklist_uid_spec(old_l, rc.sub)
                    } else {
                        rotation_post(old_l, new_l, key, rc, now, r)
                    },
                }
            },
        },
    }
}

/// One pass of the session middleware: validate the access credential,
/// consult the ledger, rotate on expiry via the refresh credential, and
/// report the claims the request proceeds under.
pub fn authenticate(
    ledger: &mut TokenLedger,
    key: &Vec<u8>,
    access: Option<&String>,
    refresh: Option<&String>,
    now: u64,
) -> (r: Result<SessionOutcome, AuthError>)
    requires
        now + ACCESS_TOKEN_TTL_SECS <= u64::MAX,
    ensures
        authenticate_post(
            key@,
            opt_token_view(access),
            opt_token_view(refresh),
            now as int,
            old(ledger)@,
            final(ledger)@,
            r,
        ),
{
    let at = match AccessToken::parse(key, access, now) {
        Ok(at) => at,
        Err(e) => {
            return Err(e);
        },
    };
    if !at.expired {
        match ledger.lookup(&at.claims.jti) {
            Some(e) => {
                if e.black {
                    return Err(AuthError::Forbidden);
                }
            },
            None => {},
        }
        Ok(SessionOutcome { claims: at.claims, issued: None })
    } else {
        let rt = match RefreshToken::parse(key, refresh, now) {
            Ok(rt) => rt,
            Err(_) => {
                return Err(AuthError::InvalidToken);
            },
        };
        if !(rt.claims.sub == at.claims.sub) {
            return Err(AuthError::InvalidToken);
        }
        match ledger.lookup(&rt.claims.jti) {
            Some(e) => {
                if e.black {
                    // Replay detected: revoke the whole session family.
                    ledger.blacklist_all(&rt.claims.sub);
                    return Err(AuthError::Forbidden);
                }
            },
            None => {},
        }
        // Consume the presented refresh token (idempotent when no entry
        // exists yet, the permissive first-use case).
        ledger.blacklist(&rt.claims.jti);
        let new_access = match AccessToken::new(key, &rt.claims.sub, now) {
            Ok(t) => t,
            Err(e) => {
                return Err(e);
            },
        };
        let new_refresh = match RefreshToken::new(key, &rt.claims.sub, Some(rt.claims.exp), now) {
            Ok(t) => t,
            Err(e) => {
                return Err(e);
            },
        };
        ledger.record(
            TokenDB::new(
                new_refresh.claims.sub.clone(),
                new_refresh.claims.jti.clone(),
                new_refresh.claims.exp,
            ),
        );
        ledger.record(
            TokenDB::new(
                new_access.claims.sub.clone(),
                new_access.claims.jti.clone(),
                new_access.claims.exp,
            ),
        );
        Ok(
            SessionOutcome {
                claims: new_access.claims.clone(),
                issued: Some(TokenPair { access: new_access, refresh: new_refresh }),
            },
        )
    }
}

/// Ledger verdict on an unexpired access token's jti, for callers that hold
/// the ledger elsewhere: a recorded, blacklisted entry forbids the request;
/// anything else (including no entry at all) lets it proceed.
pub fn check_access_entry(entry: Option<&TokenDB>) -> (r: Result<(), AuthError>)
    ensures
        entry matches Some(e) ==> r == (if e.black {
            Err::<(), AuthError>(AuthError::Forbidden)
        } else {
            Ok::<(), AuthError>(())
        }),
        entry is None ==> r == Ok::<(), AuthError>(()),
{
    match entry {
        Some(e) => {
            if e.black {
                Err(AuthError::Forbidden)
            } else {
                Ok(())
            }
        },
        None => Ok(()),
    }
}

/// A refresh token is only honoured alongside the access token it was issued
/// with: a subject mismatch is an invalid token, not a rotation.
pub fn check_refresh_subject(access: &AccessClaims, refresh: &crate::claims::RefreshClaims) -> (r:
    Result<(), AuthError>)
    ensures
        access.sub@ == refresh.sub@ <==> r is Ok,
        r matches Err(e) ==> e == AuthError::InvalidToken,
{
    if access.sub == refresh.sub {
        Ok(())
    } else {
        Err(AuthError::InvalidToken)
    }
}

/// Ledger verdict on a presented refresh token's jti, for callers that hold
/// the ledger elsewhere: no entry is acceptable first use, an unconsumed
/// entry is the normal single use, a consumed entry is replay.
pub fn classify_refresh_entry(entry: Option<&TokenDB>) -> (r: RefreshUse)
    ensures
        entry matches Some(e) ==> r == (if e.black {
            RefreshUse::Replay
        } else {
            RefreshUse::SingleUse
        }),
        entry is None ==> r == RefreshUse::FirstUse,
{
    match entry {
        Some(e) => {
            if e.black {
                RefreshUse::Replay
            } else {
                RefreshUse::SingleUse
            }
        },
        None => RefreshUse::FirstUse,
    }
}

/// Law: round trip. A validly signed access token — one that decodes to the
/// claims it was issued with, as `pair_for` guarantees of every issued pair —
/// presented before its expiry against a ledger that has not blacklisted it
/// reaches `AccessValid`, and `authenticate_post` then guarantees the very
/// claims (in particular the subject) encoded at issuance are returned.
pub proof fn lemma_access_token_round_trip(
    key: Seq<u8>,
    t: Seq<char>,
    c: ClaimsView,
    refresh: Option<Seq<char>>,
    now: int,
    l: Seq<TokenEntryView>,
)
    requires
        jwt_claims_of(key, t) == Some(c),
        c.exp > now,
        !is_blacklisted(l, c.jti),
    ensures
        session_state_of(key, Some(t), refresh, now, l) == SessionState::AccessValid,
{
}

/// Law: the state machine's transition table. What `authenticate` reports is
/// determined by the state its inputs reach: no credential is answered with
/// the missing-token error; a valid access token is accepted without touching
/// the ledger; an expired access token with an unusable refresh token is an
/// invalid-token error; a rotation succeeds; and a rejection is always an
/// invalid-token or forbidden error.
pub proof fn lemma_session_transitions(
    key: Seq<u8>,
    access: Option<Seq<char>>,
    refresh: Option<Seq<char>>,
    now: int,
    old_l: Seq<TokenEntryView>,
    new_l: Seq<TokenEntryView>,
    r: Result<SessionOutcome, AuthError>,
)
    requires
        authenticate_post(key, access, refresh, now, old_l, new_l, r),
    ensures
        session_state_of(key, access, refresh, now, old_l) == SessionState::NoCredential ==> r
            == Err::<SessionOutcome, AuthError>(AuthError::MissingToken) && new_l == old_l,
        session_state_of(key, access, refresh, now, old_l) == SessionState::AccessValid ==> r is Ok
            && new_l == old_l,
        session_state_of(key, access, refresh, now, old_l)
            == SessionState::AccessExpiredRefreshInvalid ==> r == Err::<
            SessionOutcome,
            AuthError,
        >(AuthError::InvalidToken) && new_l == old_l,
        session_state_of(key, access, refresh, now, old_l)
            == SessionState::AccessExpiredRefreshValid ==> r is Ok,
        session_state_of(key, access, refresh, now, old_l) == SessionState::Rejected ==> (r
            == Err::<SessionOutcome, AuthError>(AuthError::InvalidToken) || r == Err::<
            SessionOutcome,
            AuthError,
        >(AuthError::Forbidden)),
{
}

/// Law: rotation is single-use. Once a rotation has consumed the refresh jti
/// `j` (the ledger transition stated in `rotation_post`: `j` blacklisted, two
/// fresh jtis recorded), presenting `j` again is classified as replay, so of
/// two rotations with one refresh token at most one succeeds. The freshly
/// minted jtis are random UUIDs, which is what the premise that they differ
/// from `j` stands for.
pub proof fn lemma_refresh_single_use(
    l: Seq<TokenEntryView>,
    j: Seq<char>,
    e_r: TokenEntryView,
    e_a: TokenEntryView,
)
    requires
        find_jti(l, j) is Some,
        e_r.jti != j,
        e_a.jti != j,
    ensures
        refresh_use_of(blacklist_jti_spec(l, j).push(e_r).push(e_a), j) == RefreshUse::Replay,
{
    lemma_find_jti_found(l, j);
    lemma_find_jti_blacklist_jti(l, j, j);
    lemma_find_jti_push(blacklist_jti_spec(l, j), j, e_r);
    lemma_find_jti_push(blacklist_jti_spec(l, j).push(e_r), j, e_a);
}

/// Law: after every entry of a subject is blacklisted (logout, or replay
/// detection), any token whose jti was recorded for that subject is rejected
/// with `Forbidden` — not `InvalidToken`: the token still verifies, the
/// ledger forbids it.
pub proof fn lemma_revoked_subject_forbidden(l: Seq<TokenEntryView>, uid: Seq<char>, j: Seq<char>)
    requires
        find_jti(l, j) matches Some(e) && e.uid == uid,
    ensures
        is_blacklisted(blacklist_uid_spec(l, uid), j),
        access_check_of(blacklist_uid_spec(l, uid), j) == Err::<(), AuthError>(AuthError::Forbidden),
        refresh_use_of(blacklist_uid_spec(l, uid), j) == RefreshUse::Replay,
{
    lemma_find_jti_blacklist_uid(l, uid, j);
}

} // verus!
