//! Token ledger: the record of every issued token id and its revocation
//! status.
//!
//! One entry is created per issued token (access and refresh each get their
//! own). The `black` flag transitions false to true only: blacklisting a
//! single jti and blacklisting every entry of a user are both monotonic, so a
//! request aborted between writes leaves the ledger safe. Absence of an entry
//! for a jti is treated as "not blacklisted": only tokens explicitly marked
//! are rejected.

use vstd::prelude::*;

verus! {

/// Mathematical content of one ledger entry.
pub ghost struct TokenEntryView {
    pub uid: Seq<char>,
    pub jti: Seq<char>,
    pub exp: int,
    pub black: bool,
}

/// One ledger entry: the owning user id, the token's jti, the token's expiry
/// (Unix seconds; entries are logically garbage after it) and the blacklist
/// flag.
pub struct TokenDB {
    pub uid: String,
    pub jti: String,
    pub exp: u64,
    pub black: bool,
}

impl View for TokenDB {
    type V = TokenEntryView;

    open spec fn view(&self) -> TokenEntryView {
        TokenEntryView { uid: self.uid@, jti: self.jti@, exp: self.exp as int, black: self.black }
    }
}

impl Clone for TokenDB {
    fn clone(&self) -> (r: Self)
        ensures
            r == *self,
    {
        TokenDB { uid: self.uid.clone(), jti: self.jti.clone(), exp: self.exp, black: self.black }
    }
}

impl TokenDB {
    /// A fresh, not yet blacklisted entry.
    pub fn new(uid: String, jti: String, exp: u64) -> (r: Self)
        ensures
            r.uid == uid,
            r.jti == jti,
            r.exp == exp,
            !r.black,
    {
        TokenDB { uid, jti, exp, black: false }
    }
}

/// The first entry recorded for `jti`, if any.
pub open spec fn find_jti(s: Seq<TokenEntryView>, jti: Seq<char>) -> Option<TokenEntryView>
    decreases s.len(),
{
    if s.len() == 0 {
        None
    } else if s[0].jti == jti {
        Some(s[0])
    } else {
        find_jti(s.drop_first(), jti)
    }
}

/// Whether `jti` has a recorded entry that is blacklisted. A jti with no
/// entry counts as not blacklisted (permissive default).
pub open spec fn is_blacklisted(s: Seq<TokenEntryView>, jti: Seq<char>) -> bool {
    match find_jti(s, jti) {
        Some(e) => e.black,
        None => false,
    }
}

/// `e` with its blacklist flag set.
pub open spec fn set_black(e: TokenEntryView) -> TokenEntryView {
    TokenEntryView { black: true, ..e }
}

/// The ledger after blacklisting every entry for `jti`.
pub open spec fn blacklist_jti_spec(s: Seq<TokenEntryView>, jti: Seq<char>) -> Seq<TokenEntryView> {
    s.map_values(|e: TokenEntryView| if e.jti == jti { set_black(e) } else { e })
}

/// The ledger after blacklisting every entry owned by `uid`.
pub open spec fn blacklist_uid_spec(s: Seq<TokenEntryView>, uid: Seq<char>) -> Seq<TokenEntryView> {
    s.map_values(|e: TokenEntryView| if e.uid == uid { set_black(e) } else { e })
}

/// If the first `i` entries do not carry `jti` and entry `i` does, the lookup
/// finds entry `i`.
proof fn lemma_find_jti_first(s: Seq<TokenEntryView>, jti: Seq<char>, i: int)
    requires
        0 <= i < s.len(),
        s[i].jti == jti,
        forall|j: int| 0 <= j < i ==> (#[trigger] s[j]).jti != jti,
    ensures
        find_jti(s, jti) == Some(s[i]),
    decreases i,
{
    if i == 0 {
    } else {
        assert(s[0].jti != jti);
        assert(s.drop_first()[i - 1] == s[i]);
        assert(forall|j: int| 0 <= j < i - 1 ==> (#[trigger] s.drop_first()[j]) == s[j + 1]);
        lemma_find_jti_first(s.drop_first(), jti, i - 1);
    }
}

/// If no entry carries `jti`, the lookup finds nothing.
proof fn lemma_find_jti_none(s: Seq<TokenEntryView>, jti: Seq<char>)
    requires
        forall|j: int| 0 <= j < s.len() ==> (#[trigger] s[j]).jti != jti,
    ensures
        find_jti(s, jti) is None,
    decreases s.len(),
{
    if s.len() > 0 {
        assert(forall|j: int| 0 <= j < s.len() - 1 ==> (#[trigger] s.drop_first()[j]) == s[j + 1]);
        lemma_find_jti_none(s.drop_first(), jti);
    }
}

/// A found entry carries the jti it was looked up by.
pub proof fn lemma_find_jti_found(s: Seq<TokenEntryView>, jti: Seq<char>)
    ensures
        find_jti(s, jti) matches Some(e) ==> e.jti == jti,
    decreases s.len(),
{
    if s.len() > 0 && s[0].jti != jti {
        lemma_find_jti_found(s.drop_first(), jti);
    }
}

/// Appending an entry does not change the result of a lookup that already
/// finds one; a lookup that finds nothing afterwards finds the new entry
/// exactly when it carries the jti.
pub proof fn lemma_find_jti_push(s: Seq<TokenEntryView>, jti: Seq<char>, e: TokenEntryView)
    ensures
        find_jti(s, jti) is Some ==> find_jti(s.push(e), jti) == find_jti(s, jti),
        find_jti(s, jti) is None ==> find_jti(s.push(e), jti) == (if e.jti == jti {
            Some(e)
        } else {
            None
        }),
    decreases s.len(),
{
    if s.len() == 0 {
        assert(s.push(e)[0] == e);
        if e.jti != jti {
            assert(s.push(e).drop_first() =~= s);
        }
    } else {
        assert(s.push(e)[0] == s[0]);
        assert(s.push(e).drop_first() =~= s.drop_first().push(e));
        lemma_find_jti_push(s.drop_first(), jti, e);
    }
}

/// How a lookup commutes with blacklisting a jti: the found entry is the old
/// one, blackened exactly when it carries the blacklisted jti.
pub proof fn lemma_find_jti_blacklist_jti(s: Seq<TokenEntryView>, b: Seq<char>, q: Seq<char>)
    ensures
        find_jti(blacklist_jti_spec(s, b), q) == (match find_jti(s, q) {
            Some(e) => Some(if e.jti == b {
                set_black(e)
            } else {
                e
            }),
            None => None,
        }),
    decreases s.len(),
{
    if s.len() > 0 {
        assert(blacklist_jti_spec(s, b)[0] == (if s[0].jti == b {
            set_black(s[0])
        } else {
            s[0]
        }));
        assert(blacklist_jti_spec(s, b).drop_first() =~= blacklist_jti_spec(s.drop_first(), b));
        lemma_find_jti_blacklist_jti(s.drop_first(), b, q);
    }
}

/// How a lookup commutes with blacklisting a whole user: the found entry is
/// the old one, blackened exactly when that user owns it.
pub proof fn lemma_find_jti_blacklist_uid(s: Seq<TokenEntryView>, uid: Seq<char>, q: Seq<char>)
    ensures
        find_jti(blacklist_uid_spec(s, uid), q) == (match find_jti(s, q) {
            Some(e) => Some(if e.uid == uid {
                set_black(e)
            } else {
                e
            }),
            None => None,
        }),
    decreases s.len(),
{
    if s.len() > 0 {
        assert(blacklist_uid_spec(s, uid)[0] == (if s[0].uid == uid {
            set_black(s[0])
        } else {
            s[0]
        }));
        assert(blacklist_uid_spec(s, uid).drop_first() =~= blacklist_uid_spec(s.drop_first(), uid));
        lemma_find_jti_blacklist_uid(s.drop_first(), uid, q);
    }
}

/// Blacklisting a user touches exactly that user's entries: each of them
/// becomes blacklisted, every other entry is unchanged, and nothing is added
/// or removed.
pub proof fn lemma_blacklist_all_blackens(s: Seq<TokenEntryView>, uid: Seq<char>)
    ensures
        blacklist_uid_spec(s, uid).len() == s.len(),
        forall|i: int|
            0 <= i < s.len() && s[i].uid == uid ==> (#[trigger] blacklist_uid_spec(s, uid)[i])
                == set_black(s[i]),
        forall|i: int|
            0 <= i < s.len() && s[i].uid != uid ==> (#[trigger] blacklist_uid_spec(s, uid)[i])
                == s[i],
{
}

/// The persistent record of issued token ids, keyed by jti. The store-level
/// TTL policy that physically reaps expired entries is the persistence
/// layer's concern and is not modelled here.
pub struct TokenLedger {
    entries: Vec<TokenDB>,
}

impl View for TokenLedger {
    type V = Seq<TokenEntryView>;

    closed spec fn view(&self) -> Seq<TokenEntryView> {
        self.entries@.map_values(|e: TokenDB| e@)
    }
}

impl TokenLedger {
    /// An empty ledger.
    pub fn new() -> (r: Self)
        ensures
            r@ == Seq::<TokenEntryView>::empty(),
    {
        let r = TokenLedger { entries: Vec::new() };
        proof {
            assert(r@ =~= Seq::<TokenEntryView>::empty());
        }
        r
    }

    /// Number of recorded entries.
    pub fn len(&self) -> (r: usize)
        ensures
            r == self@.len(),
    {
        self.entries.len()
    }

    /// The entry at a given position.
    pub fn entry_at(&self, i: usize) -> (r: TokenDB)
        requires
            i < self@.len(),
        ensures
            r@ == self@[i as int],
    {
        self.entries[i].clone()
    }

    /// Record an entry. Insertion is unconditional: jti uniqueness is
    /// probabilistic (UUID-grade ids), not enforced by the ledger.
    pub fn record(&mut self, e: TokenDB)
        ensures
            final(self)@ == old(self)@.push(e@),
    {
        let ghost s0 = self.entries@;
        self.entries.push(e);
        proof {
            assert(self@ =~= s0.map_values(|x: TokenDB| x@).push(e@));
        }
    }

    /// Point lookup by jti: the first entry recorded for it, if any.
    pub fn lookup(&self, jti: &String) -> (r: Option<TokenDB>)
        ensures
            r matches Some(e) ==> find_jti(self@, jti@) == Some(e@),
            r is None ==> find_jti(self@, jti@) is None,
    {
        let n = self.entries.len();
        let mut i: usize = 0;
        while i < n
            invariant
                i <= n,
                n == self@.len(),
                self@.len() == self.entries@.len(),
                forall|j: int| 0 <= j < i ==> (#[trigger] self@[j]).jti != jti@,
            decreases n - i,
        {
            if self.entries[i].jti == *jti {
                proof {
                    assert(self@[i as int].jti == jti@);
                    lemma_find_jti_first(self@, jti@, i as int);
                }
                return Some(self.entries[i].clone());
            }
            proof {
                assert(self@[i as int] == self.entries@[i as int]@);
            }
            i = i + 1;
        }
        proof {
            lemma_find_jti_none(self@, jti@);
        }
        None
    }

    /// Idempotent set-true of the blacklist flag for one jti.
    pub fn blacklist(&mut self, jti: &String)
        ensures
            final(self)@ == blacklist_jti_spec(old(self)@, jti@),
    {
        let ghost s0 = self@;
        let n = self.entries.len();
        let mut out: Vec<TokenDB> = Vec::new();
        let mut i: usize = 0;
        while i < n
            invariant
                i <= n,
                n == self.entries@.len(),
                self@ == s0,
                s0.len() == n,
                out@.len() == i,
                forall|k: int|
                    0 <= k < i ==> (#[trigger] out@[k])@ == (if s0[k].jti == jti@ {
                        set_black(s0[k])
                    } else {
                        s0[k]
                    }),
            decreases n - i,
        {
            let mut e = self.entries[i].clone();
            proof {
                assert(e@ == s0[i as int]);
            }
            if e.jti == *jti {
                e.black = true;
            }
            out.push(e);
            i = i + 1;
        }
        self.entries = out;
        proof {
            assert(self@ =~= blacklist_jti_spec(s0, jti@));
        }
    }

    /// Set-true of the blacklist flag on every entry owned by `uid`; used for
    /// full session revocation (logout, detected replay).
    pub fn blacklist_all(&mut self, uid: &String)
        ensures
            final(self)@ == blacklist_uid_spec(old(self)@, uid@),
    {
        let ghost s0 = self@;
        let n = self.entries.len();
        let mut out: Vec<TokenDB> = Vec::new();
        let mut i: usize = 0;
        while i < n
            invariant
                i <= n,
                n == self.entries@.len(),
                self@ == s0,
                s0.len() == n,
                out@.len() == i,
                forall|k: int|
                    0 <= k < i ==> (#[trigger] out@[k])@ == (if s0[k].uid == uid@ {
                        set_black(s0[k])
                    } else {
                        s0[k]
                    }),
            decreases n - i,
        {
            let mut e = self.entries[i].clone();
            proof {
                assert(e@ == s0[i as int]);
            }
            if e.uid == *uid {
                e.black = true;
            }
            out.push(e);
            i = i + 1;
        }
        self.entries = out;
        proof {
            assert(self@ =~= blacklist_uid_spec(s0, uid@));
        }
    }
}

} // verus!
