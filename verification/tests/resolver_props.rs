use auth_adapter::facade::{create_user, get_users};
use auth_adapter::records::User;
use auth_adapter::resolver::{select_strategy, LookupStrategy, UserResult, UserSearchQuery};
use auth_adapter::store::Store;

fn user(id: &str, email: Option<&str>) -> User {
    User {
        id: id.to_string(),
        name: None,
        email: email.map(|e| e.to_string()),
        email_verified: None,
        image: None,
    }
}

fn query(
    id: Option<&str>,
    email: Option<&str>,
    provider: Option<&str>,
    provider_account_id: Option<&str>,
) -> UserSearchQuery {
    UserSearchQuery {
        id: id.map(|s| s.to_string()),
        email: email.map(|s| s.to_string()),
        provider: provider.map(|s| s.to_string()),
        provider_account_id: provider_account_id.map(|s| s.to_string()),
    }
}

#[test]
fn id_wins_over_every_other_criterion() {
    let q = query(Some("u1"), Some("a@x.com"), Some("google"), Some("42"));
    assert_eq!(select_strategy(q), LookupStrategy::ById("u1".to_string()));
}

#[test]
fn single_criterion_selects_matching_strategy() {
    assert_eq!(
        select_strategy(query(Some("u1"), None, None, None)),
        LookupStrategy::ById("u1".to_string())
    );
    assert_eq!(
        select_strategy(query(None, Some("a@x.com"), None, None)),
        LookupStrategy::ByEmail("a@x.com".to_string())
    );
    assert_eq!(
        select_strategy(query(None, None, Some("google"), Some("42"))),
        LookupStrategy::ByProviderAccount("google".to_string(), "42".to_string())
    );
    assert_eq!(
        select_strategy(query(None, None, None, Some("42"))),
        LookupStrategy::ByAccountId("42".to_string())
    );
    assert_eq!(
        select_strategy(query(None, None, Some("google"), None)),
        LookupStrategy::ByProvider("google".to_string())
    );
}

#[test]
fn email_wins_when_id_is_absent() {
    let q = query(None, Some("a@x.com"), Some("google"), Some("42"));
    assert_eq!(select_strategy(q), LookupStrategy::ByEmail("a@x.com".to_string()));
}

#[test]
fn composite_wins_over_its_components() {
    let q = query(None, None, Some("google"), Some("42"));
    assert_eq!(
        select_strategy(q),
        LookupStrategy::ByProviderAccount("google".to_string(), "42".to_string())
    );
}

#[test]
fn empty_bag_selects_all() {
    assert_eq!(select_strategy(query(None, None, None, None)), LookupStrategy::All);
}

#[test]
fn empty_bag_returns_every_user() {
    let mut store = Store::new();
    let records = vec![
        user("u1", Some("a@x.com")),
        user("u2", Some("b@x.com")),
        user("u3", None),
    ];
    for r in &records {
        create_user(&mut store, r.clone()).unwrap();
    }
    match get_users(&store, query(None, None, None, None)) {
        Ok(UserResult::Multiple(v)) => {
            assert_eq!(v.len(), 3);
            assert_eq!(v, records);
        }
        other => panic!("expected every user, got {:?}", other),
    }
}

#[test]
fn empty_bag_on_empty_store_returns_empty_list() {
    let store = Store::new();
    match get_users(&store, query(None, None, None, None)) {
        Ok(UserResult::Multiple(v)) => assert!(v.is_empty()),
        other => panic!("expected an empty list, got {:?}", other),
    }
}
