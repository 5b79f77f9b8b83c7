//! Lookup keys: one newtype per way a table can be searched.
//!
//! Keys compare by string contents, so two keys built from equal strings
//! match the same records.

use crate::engine::Keyed;
use crate::records::{Account, Session, User, VerificationToken};
use vstd::prelude::*;

verus! {

/// Matches a `User` by its identity key `id`.
pub struct UserIdKey(pub String);

/// Matches a `User` by its `email` field; a user without an email never
/// matches.
pub struct EmailKey(pub String);

/// Matches an `Account` by its composite identity key.
pub struct AccountKey {
    pub provider: String,
    pub provider_account_id: String,
}

/// Matches an `Account` by the `provider_account_id` component alone.
pub struct AccountIdKey(pub String);

/// Matches an `Account` by its `provider` alone.
pub struct ProviderKey(pub String);

/// Matches a `Session` by its identity key `id`.
pub struct SessionIdKey(pub String);

/// Matches a `Session` by its unique `session_token`.
pub struct SessionTokenKey(pub String);

/// Matches a `VerificationToken` by its `identifier`.
pub struct IdentifierKey(pub String);

impl Keyed<UserIdKey> for User {
    open spec fn key_matches(&self, key: &UserIdKey) -> bool {
        self.id@ == key.0@
    }

    fn matches(&self, key: &UserIdKey) -> (b: bool) {
        self.id == key.0
    }
}

impl Keyed<EmailKey> for User {
    open spec fn key_matches(&self, key: &EmailKey) -> bool {
        match self.email {
            Some(e) => e@ == key.0@,
            None => false,
        }
    }

    fn matches(&self, key: &EmailKey) -> (b: bool) {
        match &self.email {
            Some(e) => *e == key.0,
            None => false,
        }
    }
}

impl Keyed<AccountKey> for Account {
    open spec fn key_matches(&self, key: &AccountKey) -> bool {
        self.provider@ == key.provider@ && self.provider_account_id@ == key.provider_account_id@
    }

    fn matches(&self, key: &AccountKey) -> (b: bool) {
        self.provider == key.provider && self.provider_account_id == key.provider_account_id
    }
}

impl Keyed<AccountIdKey> for Account {
    open spec fn key_matches(&self, key: &AccountIdKey) -> bool {
        self.provider_account_id@ == key.0@
    }

    fn matches(&self, key: &AccountIdKey) -> (b: bool) {
        self.provider_account_id == key.0
    }
}

impl Keyed<ProviderKey> for Account {
    open spec fn key_matches(&self, key: &ProviderKey) -> bool {
        self.provider@ == key.0@
    }

    fn matches(&self, key: &ProviderKey) -> (b: bool) {
        self.provider == key.0
    }
}

impl Keyed<SessionIdKey> for Session {
    open spec fn key_matches(&self, key: &SessionIdKey) -> bool {
        self.id@ == key.0@
    }

    fn matches(&self, key: &SessionIdKey) -> (b: bool) {
        self.id == key.0
    }
}

impl Keyed<SessionTokenKey> for Session {
    open spec fn key_matches(&self, key: &SessionTokenKey) -> bool {
        self.session_token@ == key.0@
    }

    fn matches(&self, key: &SessionTokenKey) -> (b: bool) {
        self.session_token == key.0
    }
}

impl Keyed<IdentifierKey> for VerificationToken {
    open spec fn key_matches(&self, key: &IdentifierKey) -> bool {
        self.identifier@ == key.0@
    }

    fn matches(&self, key: &IdentifierKey) -> (b: bool) {
        self.identifier == key.0
    }
}

} // verus!
