use auth_service::domain::{BannedTokenError, BannedTokenStore};
use auth_service::services::HashsetBannedTokenStore;

#[test]
fn test_add_token() {
    let mut storage = HashsetBannedTokenStore::default();

    let _ = storage.add(String::from("asldkfjasl;dkj")).unwrap();
    let _ = storage.add(String::from("woeiruowieulas")).unwrap();

    assert_eq!(storage.len(), 2);
}

#[test]
fn test_add_check() {
    let mut storage = HashsetBannedTokenStore::default();
    let token = String::from("asldkfjalsdkjf");

    let _ = storage.add(token.clone()).unwrap();

    assert_eq!(storage.check(token), Err(BannedTokenError::BannedToken))
}

#[test]
fn check_passes_a_token_that_was_not_added() {
    let mut storage = HashsetBannedTokenStore::new();
    assert_eq!(storage.check(String::from("never-added")), Ok(()));
    storage.add(String::from("added")).unwrap();
    assert_eq!(storage.check(String::from("never-added")), Ok(()));
    assert_eq!(storage.check(String::from("added")), Err(BannedTokenError::BannedToken));
}

#[test]
fn adding_a_token_twice_holds_it_once() {
    let mut storage = HashsetBannedTokenStore::new();
    assert_eq!(storage.len(), 0);
    assert_eq!(storage.add(String::from("again")), Ok(()));
    assert_eq!(storage.add(String::from("again")), Ok(()));
    assert_eq!(storage.len(), 1);
}
