//! The four persisted record types and their patch payloads.
//!
//! A record is plain data: strings, optional strings, and timestamps held
//! as seconds since the epoch.  Each type offers `duplicate`, a copy whose
//! contract states that the copy equals the original, which derived
//! `Clone` does not give to verified callers.

use vstd::prelude::*;

verus! {

/// An end user.  Identity key: `id`; secondary lookup key: `email`.
#[derive(Clone, Debug, PartialEq, Eq)]
#[verifier::ext_equal]
pub struct User {
    pub id: String,
    pub name: Option<String>,
    pub email: Option<String>,
    /// When the email address was verified, in seconds since the epoch.
    pub email_verified: Option<i64>,
    pub image: Option<String>,
}

/// A linked external-provider credential.  Composite identity key:
/// `(provider, provider_account_id)`; `user_id` references the owning
/// `User`.
#[derive(Clone, Debug, PartialEq, Eq)]
#[verifier::ext_equal]
pub struct Account {
    pub id: String,
    pub provider: String,
    pub provider_account_id: String,
    pub user_id: String,
}

/// A login session.  Identity key: `id`; unique lookup key:
/// `session_token`; `user_id` references the owning `User`.
#[derive(Clone, Debug, PartialEq, Eq)]
#[verifier::ext_equal]
pub struct Session {
    pub id: String,
    pub session_token: String,
    pub user_id: String,
    /// Expiry instant, in seconds since the epoch.
    pub expires: i64,
}

/// An email-verification token.  `identifier` is the lookup key used on
/// delete; a separate storage `id` exists besides it.
#[derive(Clone, Debug, PartialEq, Eq)]
#[verifier::ext_equal]
pub struct VerificationToken {
    pub id: String,
    pub identifier: String,
    pub token: String,
    /// Expiry instant, in seconds since the epoch.
    pub expires: i64,
}

/// A partial payload for updating a `User`: only fields carried as
/// present overwrite the stored record, and the identity key cannot be
/// patched at all.
#[derive(Clone, Debug, PartialEq, Eq)]
#[verifier::ext_equal]
pub struct UserPatch {
    pub name: Option<String>,
    pub email: Option<String>,
    pub email_verified: Option<i64>,
    pub image: Option<String>,
}

/// The replacement payload for updating a `Session`: unlike the other
/// entities, a session update replaces the whole token / owner / expiry
/// triple rather than patching field by field.
#[derive(Clone, Debug, PartialEq, Eq)]
#[verifier::ext_equal]
pub struct SessionReplacement {
    pub session_token: String,
    pub user_id: String,
    pub expires: i64,
}

/// Copies an optional string; the copy equals the original.
fn clone_opt_string(o: &Option<String>) -> (r: Option<String>)
    ensures
        r == *o,
{
    match o {
        Some(s) => Some(s.clone()),
        None => None,
    }
}

impl crate::engine::Duplicate for User {
    fn duplicate(&self) -> (r: User) {
        let r = User {
            id: self.id.clone(),
            name: clone_opt_string(&self.name),
            email: clone_opt_string(&self.email),
            email_verified: self.email_verified,
            image: clone_opt_string(&self.image),
        };
        proof {
            assert(r =~= *self);
        }
        r
    }
}

impl crate::engine::Duplicate for Account {
    fn duplicate(&self) -> (r: Account) {
        let r = Account {
            id: self.id.clone(),
            provider: self.provider.clone(),
            provider_account_id: self.provider_account_id.clone(),
            user_id: self.user_id.clone(),
        };
        proof {
            assert(r =~= *self);
        }
        r
    }
}

impl crate::engine::Duplicate for Session {
    fn duplicate(&self) -> (r: Session) {
        let r = Session {
            id: self.id.clone(),
            session_token: self.session_token.clone(),
            user_id: self.user_id.clone(),
            expires: self.expires,
        };
        proof {
            assert(r =~= *self);
        }
        r
    }
}

impl crate::engine::Duplicate for VerificationToken {
    fn duplicate(&self) -> (r: VerificationToken) {
        let r = VerificationToken {
            id: self.id.clone(),
            identifier: self.identifier.clone(),
            token: self.token.clone(),
            expires: self.expires,
        };
        proof {
            assert(r =~= *self);
        }
        r
    }
}

} // verus!
