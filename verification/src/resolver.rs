//! The lookup resolver.
//!
//! A read request carries a bag of optional criteria.  Exactly one
//! strategy is selected from it, in a fixed priority order — `id`, then
//! `email`, then the composite `(provider, provider_account_id)`, then
//! `provider_account_id` alone, then `provider` alone, and with no
//! criteria at all every user is returned.  The first present criterion
//! wins; later ones are ignored.

use crate::engine::{first_key_at, has_key, key_matches_of};
use crate::keys::{AccountIdKey, AccountKey, EmailKey, ProviderKey, UserIdKey};
use crate::outcome::Outcome;
use crate::records::{Account, User};
use vstd::prelude::*;

verus! {

/// The criteria bag of a user read request.  All fields are optional; if
/// none is given, every user is returned.
#[derive(Debug)]
pub struct UserSearchQuery {
    /// Search by the user's `id`.
    pub id: Option<String>,
    /// Search by the user's `email` address.
    pub email: Option<String>,
    /// Search by the linked account's provider name.
    pub provider: Option<String>,
    /// Search by the linked account's provider account id.
    pub provider_account_id: Option<String>,
}

/// The strategy selected from a criteria bag.
#[derive(Debug, PartialEq, Eq)]
pub enum LookupStrategy {
    /// Exact match on the user identity key; yields a single record.
    ById(String),
    /// Exact match on the email field; yields a single record.
    ByEmail(String),
    /// Match an account by its composite key, then join to the owning
    /// users; yields a list.
    ByProviderAccount(String, String),
    /// Match an account by the id component alone, then join; yields a
    /// list.
    ByAccountId(String),
    /// Match an account by provider alone, then join; yields a list.
    ByProvider(String),
    /// No criteria: every user record.
    All,
}

/// Which strategy a criteria bag selects: the first present criterion in
/// the priority order decides, and the rest are ignored.
pub open spec fn strategy_of(q: UserSearchQuery) -> LookupStrategy {
    if q.id is Some {
        LookupStrategy::ById(q.id->0)
    } else if q.email is Some {
        LookupStrategy::ByEmail(q.email->0)
    } else if q.provider is Some && q.provider_account_id is Some {
        LookupStrategy::ByProviderAccount(q.provider->0, q.provider_account_id->0)
    } else if q.provider_account_id is Some {
        LookupStrategy::ByAccountId(q.provider_account_id->0)
    } else if q.provider is Some {
        LookupStrategy::ByProvider(q.provider->0)
    } else {
        LookupStrategy::All
    }
}

/// Selects the lookup strategy for a criteria bag.
pub fn select_strategy(q: UserSearchQuery) -> (s: LookupStrategy)
    ensures
        s == strategy_of(q),
{
    if let Some(id) = q.id {
        LookupStrategy::ById(id)
    } else if let Some(email) = q.email {
        LookupStrategy::ByEmail(email)
    } else if q.provider.is_some() && q.provider_account_id.is_some() {
        let provider = q.provider.unwrap();
        let provider_account_id = q.provider_account_id.unwrap();
        LookupStrategy::ByProviderAccount(provider, provider_account_id)
    } else if let Some(provider_account_id) = q.provider_account_id {
        LookupStrategy::ByAccountId(provider_account_id)
    } else if let Some(provider) = q.provider {
        LookupStrategy::ByProvider(provider)
    } else {
        LookupStrategy::All
    }
}

/// A resolved user read: one record for the key lookups, a list for the
/// joined and unfiltered lookups.
#[derive(Debug, PartialEq, Eq)]
pub enum UserResult {
    Single(User),
    Multiple(Vec<User>),
}

/// The users owned by `account`: the join from a matched account to its
/// related user records.
pub open spec fn joined_users(users: Seq<User>, account: Account) -> Seq<User> {
    key_matches_of(users, &UserIdKey(account.user_id))
}

/// What a resolved read must return, given the user and account tables
/// and the selected strategy.
///
/// A key lookup yields the first matching user as `Single`, or `NoContent`
/// if none matches.  An account lookup takes the first matching account
/// and yields the users joined to it as `Multiple` — even when that join
/// is empty — or `NoContent` if no account matches.  With no criteria the
/// whole user table is returned.
pub open spec fn resolution_post(
    users: Seq<User>,
    accounts: Seq<Account>,
    s: LookupStrategy,
    r: Result<UserResult, Outcome>,
) -> bool {
    match s {
        LookupStrategy::ById(id) => single_user_post(users, &UserIdKey(id), r),
        LookupStrategy::ByEmail(email) => single_user_post(users, &EmailKey(email), r),
        LookupStrategy::ByProviderAccount(provider, provider_account_id) => joined_users_post(
            users,
            accounts,
            &AccountKey { provider, provider_account_id },
            r,
        ),
        LookupStrategy::ByAccountId(provider_account_id) => joined_users_post(
            users,
            accounts,
            &AccountIdKey(provider_account_id),
            r,
        ),
        LookupStrategy::ByProvider(provider) => joined_users_post(
            users,
            accounts,
            &ProviderKey(provider),
            r,
        ),
        LookupStrategy::All => r matches Ok(UserResult::Multiple(v)) && v@ == users,
    }
}

/// A single-record lookup returns the first user matching `key`, or
/// `NoContent` when no user matches.
pub open spec fn single_user_post<K>(users: Seq<User>, key: &K, r: Result<UserResult, Outcome>) -> bool where
    User: crate::engine::Keyed<K>,
 {
    if has_key(users, key) {
        exists|i: int|
            #[trigger] first_key_at(users, key, i) && r == Ok::<UserResult, Outcome>(
                UserResult::Single(users[i]),
            )
    } else {
        r == Err::<UserResult, Outcome>(Outcome::NoContent)
    }
}

/// A joined lookup takes the first account matching `key` and returns the
/// users owned by it — an empty list if the owner is gone — or
/// `NoContent` when no account matches.
pub open spec fn joined_users_post<K>(
    users: Seq<User>,
    accounts: Seq<Account>,
    key: &K,
    r: Result<UserResult, Outcome>,
) -> bool where Account: crate::engine::Keyed<K> {
    if has_key(accounts, key) {
        exists|i: int|
            #[trigger] first_key_at(accounts, key, i) && (r matches Ok(UserResult::Multiple(v))
                && v@ == joined_users(users, accounts[i]))
    } else {
        r == Err::<UserResult, Outcome>(Outcome::NoContent)
    }
}

/// The priority order of the resolver: `id` always wins, `email` is next,
/// then the composite account key, then the id component alone, then the
/// provider alone, and an empty bag selects the list-all strategy.
pub proof fn lemma_strategy_priority(q: UserSearchQuery)
    ensures
        q.id is Some ==> strategy_of(q) == LookupStrategy::ById(q.id->0),
        q.id is None && q.email is Some ==> strategy_of(q) == LookupStrategy::ByEmail(q.email->0),
        q.id is None && q.email is None && q.provider is Some && q.provider_account_id is Some
            ==> strategy_of(q) == LookupStrategy::ByProviderAccount(
            q.provider->0,
            q.provider_account_id->0,
        ),
        q.id is None && q.email is None && q.provider is None && q.provider_account_id is Some
            ==> strategy_of(q) == LookupStrategy::ByAccountId(q.provider_account_id->0),
        q.id is None && q.email is None && q.provider is Some && q.provider_account_id is None
            ==> strategy_of(q) == LookupStrategy::ByProvider(q.provider->0),
        q.id is None && q.email is None && q.provider is None && q.provider_account_id is None
            ==> strategy_of(q) == LookupStrategy::All,
{
}

/// An empty criteria bag resolves to every user record in storage: the
/// returned list is the whole user table, so its cardinality is the store
/// size.
pub proof fn lemma_empty_bag_returns_all(
    users: Seq<User>,
    accounts: Seq<Account>,
    q: UserSearchQuery,
    r: Result<UserResult, Outcome>,
)
    requires
        q.id is None,
        q.email is None,
        q.provider is None,
        q.provider_account_id is None,
        resolution_post(users, accounts, strategy_of(q), r),
    ensures
        r matches Ok(UserResult::Multiple(v)) && v@ == users && v@.len() == users.len(),
{
}

} // verus!
