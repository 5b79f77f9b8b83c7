use auth_adapter::records::{Session, SessionReplacement, User, UserPatch};
use auth_adapter::update::{apply_session_update, apply_update};

fn existing_user() -> User {
    User {
        id: "u1".to_string(),
        name: Some("Alice".to_string()),
        email: Some("a@x.com".to_string()),
        email_verified: Some(1700000000),
        image: None,
    }
}

fn empty_patch() -> UserPatch {
    UserPatch { name: None, email: None, email_verified: None, image: None }
}

#[test]
fn all_absent_patch_returns_structurally_equal_record() {
    let existing = existing_user();
    let updated = apply_update(&existing, &empty_patch());
    assert_eq!(updated, existing);
}

#[test]
fn patch_overwrites_only_present_fields() {
    let existing = existing_user();
    let patch = UserPatch {
        name: Some("Bob".to_string()),
        email: None,
        email_verified: None,
        image: Some("http://x/img.png".to_string()),
    };
    let updated = apply_update(&existing, &patch);
    assert_eq!(updated.id, "u1".to_string());
    assert_eq!(updated.name, Some("Bob".to_string()));
    assert_eq!(updated.email, Some("a@x.com".to_string()));
    assert_eq!(updated.email_verified, Some(1700000000));
    assert_eq!(updated.image, Some("http://x/img.png".to_string()));
}

#[test]
fn patch_never_nulls_an_absent_field() {
    let existing = existing_user();
    let patch = UserPatch {
        name: None,
        email: Some("b@x.com".to_string()),
        email_verified: None,
        image: None,
    };
    let updated = apply_update(&existing, &patch);
    assert_eq!(updated.name, Some("Alice".to_string()));
    assert_eq!(updated.email, Some("b@x.com".to_string()));
    assert_eq!(updated.email_verified, Some(1700000000));
    assert_eq!(updated.image, None);
}

#[test]
fn applying_the_same_patch_twice_is_idempotent() {
    let existing = existing_user();
    let patch = UserPatch {
        name: Some("Bob".to_string()),
        email: Some("b@x.com".to_string()),
        email_verified: None,
        image: None,
    };
    let once = apply_update(&existing, &patch);
    let twice = apply_update(&once, &patch);
    assert_eq!(twice, once);
}

#[test]
fn session_update_replaces_the_whole_triple_and_keeps_the_id() {
    let existing = Session {
        id: "s1".to_string(),
        session_token: "tok-1".to_string(),
        user_id: "u1".to_string(),
        expires: 1700000000,
    };
    let replacement = SessionReplacement {
        session_token: "tok-2".to_string(),
        user_id: "u2".to_string(),
        expires: 1800000000,
    };
    let updated = apply_session_update(&existing, &replacement);
    assert_eq!(updated.id, "s1".to_string());
    assert_eq!(updated.session_token, "tok-2".to_string());
    assert_eq!(updated.user_id, "u2".to_string());
    assert_eq!(updated.expires, 1800000000);
}

#[test]
fn session_update_is_idempotent() {
    let existing = Session {
        id: "s1".to_string(),
        session_token: "tok-1".to_string(),
        user_id: "u1".to_string(),
        expires: 1700000000,
    };
    let replacement = SessionReplacement {
        session_token: "tok-2".to_string(),
        user_id: "u1".to_string(),
        expires: 1800000000,
    };
    let once = apply_session_update(&existing, &replacement);
    let twice = apply_session_update(&once, &replacement);
    assert_eq!(twice, once);
}
