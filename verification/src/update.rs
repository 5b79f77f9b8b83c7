//! The partial update engine.
//!
//! `apply_update` copies an existing record and overwrites exactly the
//! fields the patch carries as present; absent fields are never nulled
//! out, and the identity key cannot be patched.  A session update is the
//! one full-replace exception: it swaps the whole token / owner / expiry
//! triple.  Nothing here persists: the caller hands the prepared record
//! to storage.

use crate::engine::Duplicate;
use crate::records::{Session, SessionReplacement, User, UserPatch};
use vstd::prelude::*;

verus! {

/// The record `apply_update` prepares: `existing` with every present
/// field of `patch` written over it and every absent field untouched.
pub open spec fn patched_user(existing: User, patch: UserPatch) -> User {
    User {
        id: existing.id,
        name: if patch.name is Some {
            patch.name
        } else {
            existing.name
        },
        email: if patch.email is Some {
            patch.email
        } else {
            existing.email
        },
        email_verified: if patch.email_verified is Some {
            patch.email_verified
        } else {
            existing.email_verified
        },
        image: if patch.image is Some {
            patch.image
        } else {
            existing.image
        },
    }
}

/// The record `apply_session_update` prepares: the stored id with the
/// replacement's token, owner and expiry.
pub open spec fn replaced_session(existing: Session, replacement: SessionReplacement) -> Session {
    Session {
        id: existing.id,
        session_token: replacement.session_token,
        user_id: replacement.user_id,
        expires: replacement.expires,
    }
}

/// Applies a partial payload to an existing user record: each field the
/// patch carries as present is set on a copy of the record, each absent
/// field is left as stored, and the identity key is kept.
pub fn apply_update(existing: &User, patch: &UserPatch) -> (r: User)
    ensures
        r == patched_user(*existing, *patch),
{
    let mut r = existing.duplicate();
    if let Some(name) = &patch.name {
        r.name = Some(name.clone());
    }
    if let Some(email) = &patch.email {
        r.email = Some(email.clone());
    }
    if let Some(email_verified) = &patch.email_verified {
        r.email_verified = Some(*email_verified);
    }
    if let Some(image) = &patch.image {
        r.image = Some(image.clone());
    }
    proof {
        assert(r =~= patched_user(*existing, *patch));
    }
    r
}

/// Applies a session replacement: the stored `id` is kept and the whole
/// token / owner / expiry triple is taken from the payload.
pub fn apply_session_update(existing: &Session, replacement: &SessionReplacement) -> (r: Session)
    ensures
        r == replaced_session(*existing, *replacement),
{
    let r = Session {
        id: existing.id.clone(),
        session_token: replacement.session_token.clone(),
        user_id: replacement.user_id.clone(),
        expires: replacement.expires,
    };
    proof {
        assert(r =~= replaced_session(*existing, *replacement));
    }
    r
}

/// An all-absent patch changes nothing: the prepared record is
/// structurally equal to the existing one.
pub proof fn lemma_all_absent_patch_is_identity(existing: User, patch: UserPatch)
    requires
        patch.name is None,
        patch.email is None,
        patch.email_verified is None,
        patch.image is None,
    ensures
        patched_user(existing, patch) == existing,
{
    assert(patched_user(existing, patch) =~= existing);
}

/// Applying the same patch twice is idempotent: the second application
/// yields the same record as the first.
pub proof fn lemma_patch_idempotent(existing: User, patch: UserPatch)
    ensures
        patched_user(patched_user(existing, patch), patch) == patched_user(existing, patch),
{
    assert(patched_user(patched_user(existing, patch), patch) =~= patched_user(existing, patch));
}

/// A session replacement is idempotent as well: replaying the same
/// payload leaves the prepared record unchanged.
pub proof fn lemma_session_replacement_idempotent(existing: Session, replacement: SessionReplacement)
    ensures
        replaced_session(replaced_session(existing, replacement), replacement) == replaced_session(
            existing,
            replacement,
        ),
{
    assert(replaced_session(replaced_session(existing, replacement), replacement)
        =~= replaced_session(existing, replacement));
}

} // verus!
