//! The in-memory store behind the CRUD facade.
//!
//! The facade consumes a generic query / insert / update / delete
//! capability against typed tables; this store provides that capability
//! as four in-memory tables, scanned in order like filtered queries.  The
//! adapter owns one store, created once at startup and handed explicitly
//! to every operation.

use crate::engine::Keyed;
use crate::keys::AccountKey;
use crate::records::{Account, Session, User, VerificationToken};
use vstd::prelude::*;

verus! {

/// No two users share an identity key.
pub open spec fn distinct_user_ids(users: Seq<User>) -> bool {
    forall|i: int, j: int|
        0 <= i < j < users.len() ==> (#[trigger] users[i].id@) != (#[trigger] users[j].id@)
}

/// No two accounts share the composite identity key.
pub open spec fn distinct_account_keys(accounts: Seq<Account>) -> bool {
    forall|i: int, j: int|
        0 <= i < j < accounts.len() ==> !((#[trigger] accounts[i].provider@)
            == (#[trigger] accounts[j].provider@) && accounts[i].provider_account_id@
            == accounts[j].provider_account_id@)
}

/// No two sessions share an identity key.
pub open spec fn distinct_session_ids(sessions: Seq<Session>) -> bool {
    forall|i: int, j: int|
        0 <= i < j < sessions.len() ==> (#[trigger] sessions[i].id@) != (#[trigger] sessions[j].id@)
}

/// No two verification tokens share an identifier.
pub open spec fn distinct_token_identifiers(tokens: Seq<VerificationToken>) -> bool {
    forall|i: int, j: int|
        0 <= i < j < tokens.len() ==> (#[trigger] tokens[i].identifier@) != (
        #[trigger] tokens[j].identifier@)
}

/// The four typed tables.
pub struct Store {
    pub users: Vec<User>,
    pub accounts: Vec<Account>,
    pub sessions: Vec<Session>,
    pub verification_tokens: Vec<VerificationToken>,
}

impl Store {
    /// A well-formed dataset: every identity key — a user's `id`, an
    /// account's composite key, a session's `id`, a verification token's
    /// `identifier` — names at most one record.  Creation refuses
    /// duplicates of these keys, and every operation preserves the
    /// property.  Session tokens are unique on creation too, but a
    /// full-replace session update may alias them; token lookups take the
    /// first match.
    pub open spec fn wf(&self) -> bool {
        &&& distinct_user_ids(self.users@)
        &&& distinct_account_keys(self.accounts@)
        &&& distinct_session_ids(self.sessions@)
        &&& distinct_token_identifiers(self.verification_tokens@)
    }

    /// An empty store: every table has no records.
    pub fn new() -> (s: Store)
        ensures
            s.users@ == Seq::<User>::empty(),
            s.accounts@ == Seq::<Account>::empty(),
            s.sessions@ == Seq::<Session>::empty(),
            s.verification_tokens@ == Seq::<VerificationToken>::empty(),
            s.wf(),
    {
        Store {
            users: Vec::new(),
            accounts: Vec::new(),
            sessions: Vec::new(),
            verification_tokens: Vec::new(),
        }
    }
}

/// In a well-formed dataset a composite account lookup is unambiguous:
/// any two positions matching the same composite key coincide, so the
/// first match is the only match.
pub proof fn lemma_wf_composite_lookup_unambiguous(
    accounts: Seq<Account>,
    key: AccountKey,
    i: int,
    j: int,
)
    requires
        distinct_account_keys(accounts),
        0 <= i < accounts.len(),
        0 <= j < accounts.len(),
        accounts[i].key_matches(&key),
        accounts[j].key_matches(&key),
    ensures
        i == j,
{
    assert(accounts[i].provider@ == key.provider@);
    assert(accounts[j].provider@ == key.provider@);
}

/// In a well-formed dataset, deleting the account a composite lookup
/// found leaves no account for that key: the same read afterwards comes
/// back empty.
pub proof fn lemma_wf_deleted_account_stays_gone(accounts: Seq<Account>, key: AccountKey, i: int)
    requires
        distinct_account_keys(accounts),
        crate::engine::first_key_at(accounts, &key, i),
    ensures
        !crate::engine::has_key(accounts.remove(i), &key),
{
    assert forall|m: int|
        0 <= m < accounts.remove(i).len() implies !(accounts.remove(i)[m].key_matches(&key)) by {
        let m0: int = if m < i {
            m
        } else {
            m + 1
        };
        assert(accounts.remove(i)[m] == accounts[m0]);
        if accounts[m0].key_matches(&key) {
            lemma_wf_composite_lookup_unambiguous(accounts, key, i, m0);
        }
    }
}

/// The adapter: the single shared storage handle, created once and passed
/// to every operation.
pub struct AuthAdapter {
    pub store: Store,
}

impl AuthAdapter {
    /// A fresh adapter over an empty store.
    pub fn new() -> (a: AuthAdapter)
        ensures
            a.store.users@ == Seq::<User>::empty(),
            a.store.accounts@ == Seq::<Account>::empty(),
            a.store.sessions@ == Seq::<Session>::empty(),
            a.store.verification_tokens@ == Seq::<VerificationToken>::empty(),
            a.store.wf(),
    {
        AuthAdapter { store: Store::new() }
    }
}

} // verus!
