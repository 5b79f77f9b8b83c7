//! The CRUD operation facade.
//!
//! One operation per entity and verb, each built from the lookup engine
//! and the update engine over the in-memory store.  Every write first
//! validates that its key parameter is present — a missing key is
//! rejected as `Unprocessable` before the store is touched — then looks
//! the record up, then commits, and the outcome names the first step
//! that failed.

use crate::engine::{
    collect_matches, duplicate_all, find_first, first_key_at, has_key, Duplicate, Keyed,
};
use crate::keys::{
    AccountIdKey, AccountKey, EmailKey, IdentifierKey, ProviderKey, SessionIdKey, SessionTokenKey,
    UserIdKey,
};
use crate::outcome::Outcome;
use crate::records::{Account, Session, SessionReplacement, User, UserPatch, VerificationToken};
use crate::resolver::{resolution_post, select_strategy, strategy_of, LookupStrategy, UserResult,
    UserSearchQuery};
use crate::store::{
    distinct_account_keys, distinct_session_ids, distinct_token_identifiers, distinct_user_ids,
    Store,
};
use crate::update::{apply_session_update, apply_update, patched_user, replaced_session};
use vstd::prelude::*;

verus! {

/// Inserts a user record.  The insert is refused as a conflict when a
/// record with the same identity key is already stored; otherwise the
/// persisted record is returned.
pub fn create_user(store: &mut Store, payload: User) -> (r: Result<User, Outcome>)
    ensures
        final(store).accounts == old(store).accounts,
        final(store).sessions == old(store).sessions,
        final(store).verification_tokens == old(store).verification_tokens,
        has_key(old(store).users@, &UserIdKey(payload.id)) ==> r == Err::<User, Outcome>(
            Outcome::Conflict,
        ) && final(store).users == old(store).users,
        !has_key(old(store).users@, &UserIdKey(payload.id)) ==> r == Ok::<User, Outcome>(payload)
            && final(store).users@ == old(store).users@.push(payload),
        old(store).wf() ==> final(store).wf(),
{
    let key = UserIdKey(payload.id.clone());
    if find_first(&store.users, &key).is_some() {
        return Err(Outcome::Conflict);
    }
    let created = payload.duplicate();
    store.users.push(payload);
    proof {
        if distinct_user_ids(old(store).users@) {
            assert forall|a: int, b: int|
                0 <= a < b < store.users@.len() implies store.users@[a].id@
                != store.users@[b].id@ by {
                if b == store.users@.len() - 1 {
                    assert(!(old(store).users@[a].key_matches(&key)));
                }
            }
        }
    }
    Ok(created)
}

/// Resolves a user read request: selects the strategy the criteria bag
/// asks for, in priority order, and answers it against the store.
pub fn get_users(store: &Store, params: UserSearchQuery) -> (r: Result<UserResult, Outcome>)
    ensures
        resolution_post(store.users@, store.accounts@, strategy_of(params), r),
{
    match select_strategy(params) {
        LookupStrategy::ById(id) => {
            let key = UserIdKey(id);
            match find_first(&store.users, &key) {
                Some(i) => Ok(UserResult::Single(store.users[i].duplicate())),
                None => Err(Outcome::NoContent),
            }
        },
        LookupStrategy::ByEmail(email) => {
            let key = EmailKey(email);
            match find_first(&store.users, &key) {
                Some(i) => Ok(UserResult::Single(store.users[i].duplicate())),
                None => Err(Outcome::NoContent),
            }
        },
        LookupStrategy::ByProviderAccount(provider, provider_account_id) => {
            let key = AccountKey { provider, provider_account_id };
            match find_first(&store.accounts, &key) {
                Some(i) => {
                    let owner = UserIdKey(store.accounts[i].user_id.clone());
                    Ok(UserResult::Multiple(collect_matches(&store.users, &owner)))
                },
                None => Err(Outcome::NoContent),
            }
        },
        LookupStrategy::ByAccountId(provider_account_id) => {
            let key = AccountIdKey(provider_account_id);
            match find_first(&store.accounts, &key) {
                Some(i) => {
                    let owner = UserIdKey(store.accounts[i].user_id.clone());
                    Ok(UserResult::Multiple(collect_matches(&store.users, &owner)))
                },
                None => Err(Outcome::NoContent),
            }
        },
        LookupStrategy::ByProvider(provider) => {
            let key = ProviderKey(provider);
            match find_first(&store.accounts, &key) {
                Some(i) => {
                    let owner = UserIdKey(store.accounts[i].user_id.clone());
                    Ok(UserResult::Multiple(collect_matches(&store.users, &owner)))
                },
                None => Err(Outcome::NoContent),
            }
        },
        LookupStrategy::All => Ok(UserResult::Multiple(duplicate_all(&store.users))),
    }
}

/// Updates the user named by the required `id` query parameter with a
/// partial payload.  Without the parameter the request is rejected as
/// `Unprocessable` and storage is never touched.
pub fn update_user(store: &mut Store, id: Option<String>, patch: UserPatch) -> (o: Outcome)
    ensures
        final(store).accounts == old(store).accounts,
        final(store).sessions == old(store).sessions,
        final(store).verification_tokens == old(store).verification_tokens,
        id is None ==> o == Outcome::Unprocessable && final(store).users == old(store).users,
        id matches Some(v) ==> ({
            if has_key(old(store).users@, &UserIdKey(v)) {
                o == Outcome::Success && exists|i: int|
                    {
                        &&& #[trigger] first_key_at(old(store).users@, &UserIdKey(v), i)
                        &&& final(store).users@ == old(store).users@.update(
                            i,
                            patched_user(old(store).users@[i], patch),
                        )
                    }
            } else {
                o == Outcome::NotFound && final(store).users == old(store).users
            }
        }),
        old(store).wf() ==> final(store).wf(),
{
    let id = match id {
        Some(v) => v,
        None => {
            return Outcome::Unprocessable;
        },
    };
    let key = UserIdKey(id);
    match find_first(&store.users, &key) {
        Some(i) => {
            let updated = apply_update(&store.users[i], &patch);
            store.users.set(i, updated);
            proof {
                if distinct_user_ids(old(store).users@) {
                    assert forall|a: int, b: int|
                        0 <= a < b < store.users@.len() implies store.users@[a].id@
                        != store.users@[b].id@ by {
                        assert(store.users@[a].id@ == old(store).users@[a].id@);
                        assert(store.users@[b].id@ == old(store).users@[b].id@);
                    }
                }
            }
            Outcome::Success
        },
        None => Outcome::NotFound,
    }
}

/// Deletes the user named by the required `id` query parameter.  Without
/// the parameter the request is rejected as `Unprocessable` and storage
/// is never touched.
pub fn delete_user(store: &mut Store, id: Option<String>) -> (o: Outcome)
    ensures
        final(store).accounts == old(store).accounts,
        final(store).sessions == old(store).sessions,
        final(store).verification_tokens == old(store).verification_tokens,
        id is None ==> o == Outcome::Unprocessable && final(store).users == old(store).users,
        id matches Some(v) ==> ({
            if has_key(old(store).users@, &UserIdKey(v)) {
                o == Outcome::Success && exists|i: int|
                    {
                        &&& #[trigger] first_key_at(old(store).users@, &UserIdKey(v), i)
                        &&& final(store).users@ == old(store).users@.remove(i)
                    }
            } else {
                o == Outcome::NotFound && final(store).users == old(store).users
            }
        }),
        old(store).wf() ==> final(store).wf(),
{
    let id = match id {
        Some(v) => v,
        None => {
            return Outcome::Unprocessable;
        },
    };
    let key = UserIdKey(id);
    match find_first(&store.users, &key) {
        Some(i) => {
            store.users.remove(i);
            proof {
                if distinct_user_ids(old(store).users@) {
                    assert forall|a: int, b: int|
                        0 <= a < b < store.users@.len() implies store.users@[a].id@
                        != store.users@[b].id@ by {
                        let a0: int = if a < i { a } else { a + 1 };
                        let b0: int = if b < i { b } else { b + 1 };
                        assert(store.users@[a].id@ == old(store).users@[a0].id@);
                        assert(store.users@[b].id@ == old(store).users@[b0].id@);
                    }
                }
            }
            Outcome::Success
        },
        None => Outcome::NotFound,
    }
}

/// Inserts a linked provider account.  The insert is refused as a
/// conflict when an account with the same composite identity key is
/// already stored, keeping composite lookups unambiguous.
pub fn create_account(store: &mut Store, payload: Account) -> (o: Outcome)
    ensures
        final(store).users == old(store).users,
        final(store).sessions == old(store).sessions,
        final(store).verification_tokens == old(store).verification_tokens,
        has_key(
            old(store).accounts@,
            &AccountKey { provider: payload.provider, provider_account_id: payload.provider_account_id },
        ) ==> o == Outcome::Conflict && final(store).accounts == old(store).accounts,
        !has_key(
            old(store).accounts@,
            &AccountKey { provider: payload.provider, provider_account_id: payload.provider_account_id },
        ) ==> o == Outcome::Created && final(store).accounts@ == old(store).accounts@.push(payload),
        old(store).wf() ==> final(store).wf(),
{
    let key = AccountKey {
        provider: payload.provider.clone(),
        provider_account_id: payload.provider_account_id.clone(),
    };
    if find_first(&store.accounts, &key).is_some() {
        return Outcome::Conflict;
    }
    store.accounts.push(payload);
    proof {
        if distinct_account_keys(old(store).accounts@) {
            assert forall|a: int, b: int|
                0 <= a < b < store.accounts@.len() implies !(store.accounts@[a].provider@
                == store.accounts@[b].provider@ && store.accounts@[a].provider_account_id@
                == store.accounts@[b].provider_account_id@) by {
                if b == store.accounts@.len() - 1 {
                    assert(!(old(store).accounts@[a].key_matches(&key)));
                }
            }
        }
    }
    Outcome::Created
}

/// Deletes the account named by the required composite key, given as the
/// two query parameters.  If either parameter is missing the request is
/// rejected as `Unprocessable` and storage is never touched.
pub fn delete_account(
    store: &mut Store,
    provider: Option<String>,
    provider_account_id: Option<String>,
) -> (o: Outcome)
    ensures
        final(store).users == old(store).users,
        final(store).sessions == old(store).sessions,
        final(store).verification_tokens == old(store).verification_tokens,
        provider is None || provider_account_id is None ==> o == Outcome::Unprocessable && final(store).accounts == old(store).accounts,
        provider is Some && provider_account_id is Some ==> ({
            let key = AccountKey {
                provider: provider->0,
                provider_account_id: provider_account_id->0,
            };
            if has_key(old(store).accounts@, &key) {
                o == Outcome::Success && exists|i: int|
                    {
                        &&& #[trigger] first_key_at(old(store).accounts@, &key, i)
                        &&& final(store).accounts@ == old(store).accounts@.remove(i)
                    }
            } else {
                o == Outcome::NotFound && final(store).accounts == old(store).accounts
            }
        }),
        old(store).wf() ==> final(store).wf(),
{
    let (provider, provider_account_id) = match (provider, provider_account_id) {
        (Some(p), Some(a)) => (p, a),
        _ => {
            return Outcome::Unprocessable;
        },
    };
    let key = AccountKey { provider, provider_account_id };
    match find_first(&store.accounts, &key) {
        Some(i) => {
            store.accounts.remove(i);
            proof {
                if distinct_account_keys(old(store).accounts@) {
                    assert forall|a: int, b: int|
                        0 <= a < b < store.accounts@.len() implies !(store.accounts@[a].provider@
                        == store.accounts@[b].provider@ && store.accounts@[a].provider_account_id@
                        == store.accounts@[b].provider_account_id@) by {
                        let a0: int = if a < i { a } else { a + 1 };
                        let b0: int = if b < i { b } else { b + 1 };
                        assert(store.accounts@[a] == old(store).accounts@[a0]);
                        assert(store.accounts@[b] == old(store).accounts@[b0]);
                    }
                }
            }
            Outcome::Success
        },
        None => Outcome::NotFound,
    }
}

/// Inserts a session record and returns the persisted record.  The
/// insert is refused as a conflict when a session with the same identity
/// key or the same session token is already stored.
pub fn create_session(store: &mut Store, payload: Session) -> (r: Result<Session, Outcome>)
    ensures
        final(store).users == old(store).users,
        final(store).accounts == old(store).accounts,
        final(store).verification_tokens == old(store).verification_tokens,
        has_key(old(store).sessions@, &SessionIdKey(payload.id)) || has_key(
            old(store).sessions@,
            &SessionTokenKey(payload.session_token),
        ) ==> r == Err::<Session, Outcome>(Outcome::Conflict) && final(store).sessions == old(store).sessions,
        !has_key(old(store).sessions@, &SessionIdKey(payload.id)) && !has_key(
            old(store).sessions@,
            &SessionTokenKey(payload.session_token),
        ) ==> r == Ok::<Session, Outcome>(payload) && final(store).sessions@ == old(store).sessions@.push(payload),
        old(store).wf() ==> final(store).wf(),
{
    let id_key = SessionIdKey(payload.id.clone());
    if find_first(&store.sessions, &id_key).is_some() {
        return Err(Outcome::Conflict);
    }
    let token_key = SessionTokenKey(payload.session_token.clone());
    if find_first(&store.sessions, &token_key).is_some() {
        return Err(Outcome::Conflict);
    }
    let created = payload.duplicate();
    store.sessions.push(payload);
    proof {
        if distinct_session_ids(old(store).sessions@) {
            assert forall|a: int, b: int|
                0 <= a < b < store.sessions@.len() implies store.sessions@[a].id@
                != store.sessions@[b].id@ by {
                if b == store.sessions@.len() - 1 {
                    assert(!(old(store).sessions@[a].key_matches(&id_key)));
                }
            }
        }
    }
    Ok(created)
}

/// A joined session read: the session matched by its token together with
/// the user that owns it.
#[derive(Debug, PartialEq, Eq)]
pub struct UserAndSession {
    pub user: User,
    pub session: Session,
}

/// Reads the session named by the required `session_token` query
/// parameter, joined to its owning user.  Without the parameter the
/// request is rejected as `Unprocessable`; a missing session or a missing
/// owner both answer `NoContent`.
pub fn get_session_and_user(store: &Store, session_token: Option<String>) -> (r: Result<
    UserAndSession,
    Outcome,
>)
    ensures
        session_token is None ==> r == Err::<UserAndSession, Outcome>(Outcome::Unprocessable),
        session_token matches Some(t) ==> ({
            if has_key(store.sessions@, &SessionTokenKey(t)) {
                exists|i: int|
                    {
                        &&& #[trigger] first_key_at(store.sessions@, &SessionTokenKey(t), i)
                        &&& ({
                            let owner = UserIdKey(store.sessions@[i].user_id);
                            if has_key(store.users@, &owner) {
                                exists|j: int|
                                    {
                                        &&& #[trigger] first_key_at(store.users@, &owner, j)
                                        &&& r == Ok::<UserAndSession, Outcome>(
                                            UserAndSession {
                                                user: store.users@[j],
                                                session: store.sessions@[i],
                                            },
                                        )
                                    }
                            } else {
                                r == Err::<UserAndSession, Outcome>(Outcome::NoContent)
                            }
                        })
                    }
            } else {
                r == Err::<UserAndSession, Outcome>(Outcome::NoContent)
            }
        }),
{
    let token = match session_token {
        Some(t) => t,
        None => {
            return Err(Outcome::Unprocessable);
        },
    };
    let key = SessionTokenKey(token);
    match find_first(&store.sessions, &key) {
        Some(i) => {
            let owner = UserIdKey(store.sessions[i].user_id.clone());
            match find_first(&store.users, &owner) {
                Some(j) => Ok(
                    UserAndSession {
                        user: store.users[j].duplicate(),
                        session: store.sessions[i].duplicate(),
                    },
                ),
                None => Err(Outcome::NoContent),
            }
        },
        None => Err(Outcome::NoContent),
    }
}

/// Updates the session named by the required `session_token` query
/// parameter, replacing its whole token / owner / expiry triple.  Without
/// the parameter the request is rejected as `Unprocessable` and storage
/// is never touched.
pub fn update_session(
    store: &mut Store,
    session_token: Option<String>,
    replacement: SessionReplacement,
) -> (o: Outcome)
    ensures
        final(store).users == old(store).users,
        final(store).accounts == old(store).accounts,
        final(store).verification_tokens == old(store).verification_tokens,
        session_token is None ==> o == Outcome::Unprocessable && final(store).sessions == old(store).sessions,
        session_token matches Some(t) ==> ({
            if has_key(old(store).sessions@, &SessionTokenKey(t)) {
                o == Outcome::Success && exists|i: int|
                    {
                        &&& #[trigger] first_key_at(old(store).sessions@, &SessionTokenKey(t), i)
                        &&& final(store).sessions@ == old(store).sessions@.update(
                            i,
                            replaced_session(old(store).sessions@[i], replacement),
                        )
                    }
            } else {
                o == Outcome::NotFound && final(store).sessions == old(store).sessions
            }
        }),
        old(store).wf() ==> final(store).wf(),
{
    let token = match session_token {
        Some(t) => t,
        None => {
            return Outcome::Unprocessable;
        },
    };
    let key = SessionTokenKey(token);
    match find_first(&store.sessions, &key) {
        Some(i) => {
            let updated = apply_session_update(&store.sessions[i], &replacement);
            store.sessions.set(i, updated);
            proof {
                if distinct_session_ids(old(store).sessions@) {
                    assert forall|a: int, b: int|
                        0 <= a < b < store.sessions@.len() implies store.sessions@[a].id@
                        != store.sessions@[b].id@ by {
                        assert(store.sessions@[a].id@ == old(store).sessions@[a].id@);
                        assert(store.sessions@[b].id@ == old(store).sessions@[b].id@);
                    }
                }
            }
            Outcome::Success
        },
        None => Outcome::NotFound,
    }
}

/// Deletes the session named by the required `session_token` query
/// parameter.  Without the parameter the request is rejected as
/// `Unprocessable` and storage is never touched.
pub fn delete_session(store: &mut Store, session_token: Option<String>) -> (o: Outcome)
    ensures
        final(store).users == old(store).users,
        final(store).accounts == old(store).accounts,
        final(store).verification_tokens == old(store).verification_tokens,
        session_token is None ==> o == Outcome::Unprocessable && final(store).sessions == old(store).sessions,
        session_token matches Some(t) ==> ({
            if has_key(old(store).sessions@, &SessionTokenKey(t)) {
                o == Outcome::Success && exists|i: int|
                    {
                        &&& #[trigger] first_key_at(old(store).sessions@, &SessionTokenKey(t), i)
                        &&& final(store).sessions@ == old(store).sessions@.remove(i)
                    }
            } else {
                o == Outcome::NotFound && final(store).sessions == old(store).sessions
            }
        }),
        old(store).wf() ==> final(store).wf(),
{
    let token = match session_token {
        Some(t) => t,
        None => {
            return Outcome::Unprocessable;
        },
    };
    let key = SessionTokenKey(token);
    match find_first(&store.sessions, &key) {
        Some(i) => {
            store.sessions.remove(i);
            proof {
                if distinct_session_ids(old(store).sessions@) {
                    assert forall|a: int, b: int|
                        0 <= a < b < store.sessions@.len() implies store.sessions@[a].id@
                        != store.sessions@[b].id@ by {
                        let a0: int = if a < i { a } else { a + 1 };
                        let b0: int = if b < i { b } else { b + 1 };
                        assert(store.sessions@[a].id@ == old(store).sessions@[a0].id@);
                        assert(store.sessions@[b].id@ == old(store).sessions@[b0].id@);
                    }
                }
            }
            Outcome::Success
        },
        None => Outcome::NotFound,
    }
}

/// Inserts a verification token.  The insert is refused as a conflict
/// when a token with the same identifier is already stored.
pub fn create_verif_token(store: &mut Store, payload: VerificationToken) -> (o: Outcome)
    ensures
        final(store).users == old(store).users,
        final(store).accounts == old(store).accounts,
        final(store).sessions == old(store).sessions,
        has_key(old(store).verification_tokens@, &IdentifierKey(payload.identifier)) ==> o
            == Outcome::Conflict && final(store).verification_tokens == old(store).verification_tokens,
        !has_key(old(store).verification_tokens@, &IdentifierKey(payload.identifier)) ==> o
            == Outcome::Created && final(store).verification_tokens@ == old(store).verification_tokens@.push(payload),
        old(store).wf() ==> final(store).wf(),
{
    let key = IdentifierKey(payload.identifier.clone());
    if find_first(&store.verification_tokens, &key).is_some() {
        return Outcome::Conflict;
    }
    store.verification_tokens.push(payload);
    proof {
        if distinct_token_identifiers(old(store).verification_tokens@) {
            assert forall|a: int, b: int|
                0 <= a < b < store.verification_tokens@.len() implies store.verification_tokens@[a].identifier@
                != store.verification_tokens@[b].identifier@ by {
                if b == store.verification_tokens@.len() - 1 {
                    assert(!(old(store).verification_tokens@[a].key_matches(&key)));
                }
            }
        }
    }
    Outcome::Created
}

/// Deletes the verification token named by the required `identifier`
/// query parameter and returns the deleted record.  Without the parameter
/// the request is rejected as `Unprocessable` and storage is never
/// touched.
pub fn delete_verif_token(store: &mut Store, identifier: Option<String>) -> (r: Result<
    VerificationToken,
    Outcome,
>)
    ensures
        final(store).users == old(store).users,
        final(store).accounts == old(store).accounts,
        final(store).sessions == old(store).sessions,
        identifier is None ==> r == Err::<VerificationToken, Outcome>(Outcome::Unprocessable)
            && final(store).verification_tokens == old(store).verification_tokens,
        identifier matches Some(v) ==> ({
            if has_key(old(store).verification_tokens@, &IdentifierKey(v)) {
                exists|i: int|
                    {
                        &&& #[trigger] first_key_at(
                            old(store).verification_tokens@,
                            &IdentifierKey(v),
                            i,
                        )
                        &&& r == Ok::<VerificationToken, Outcome>(
                            old(store).verification_tokens@[i],
                        )
                        &&& final(store).verification_tokens@ == old(store).verification_tokens@.remove(i)
                    }
            } else {
                r == Err::<VerificationToken, Outcome>(Outcome::NotFound) && final(store).verification_tokens == old(store).verification_tokens
            }
        }),
        old(store).wf() ==> final(store).wf(),
{
    let identifier = match identifier {
        Some(v) => v,
        None => {
            return Err(Outcome::Unprocessable);
        },
    };
    let key = IdentifierKey(identifier);
    match find_first(&store.verification_tokens, &key) {
        Some(i) => {
            let deleted = store.verification_tokens.remove(i);
            proof {
                if distinct_token_identifiers(old(store).verification_tokens@) {
                    assert forall|a: int, b: int|
                        0 <= a < b < store.verification_tokens@.len() implies store.verification_tokens@[a].identifier@
                        != store.verification_tokens@[b].identifier@ by {
                        let a0: int = if a < i { a } else { a + 1 };
                        let b0: int = if b < i { b } else { b + 1 };
                        assert(store.verification_tokens@[a].identifier@ == old(
                            store,
                        ).verification_tokens@[a0].identifier@);
                        assert(store.verification_tokens@[b].identifier@ == old(
                            store,
                        ).verification_tokens@[b0].identifier@);
                    }
                }
            }
            Ok(deleted)
        },
        None => Err(Outcome::NotFound),
    }
}

} // verus!
