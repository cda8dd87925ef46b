use auth_service::domain::User;
use auth_service::services::hashmap_user_store::{HashmapUserStore, UserStoreError};

#[test]
fn test_add_user() {
    let mut user_store = HashmapUserStore::default();
    let user = User::new(
        "test@example.com".to_string(),
        "password".to_string(),
        false,
    );
    user_store.add_user(&user).unwrap();
    assert_eq!(user_store.users.len(), 1);
    assert_eq!(user_store.users.get("test@example.com").unwrap(), &user);
}

#[test]
fn test_get_user() {
    let mut user_store = HashmapUserStore::default();
    let user = User::new(
        "test@example.com".to_string(),
        "password".to_string(),
        false,
    );
    user_store.add_user(&user).unwrap();
    assert_eq!(user_store.get_user("test@example.com").unwrap(), &user);
    assert_eq!(
        user_store.get_user("nonexistent@example.com").err(),
        Some(UserStoreError::UserNotFound)
    );
}

#[test]
fn test_validate_user() {
    let mut user_store = HashmapUserStore::default();
    let user = User::new(
        "test@example.com".to_string(),
        "password".to_string(),
        false,
    );
    user_store.add_user(&user).unwrap();
    assert_eq!(
        user_store
            .validate_user("test@example.com", "password")
            .unwrap(),
        ()
    );
    assert_eq!(
        user_store
            .validate_user("test@example.com", "wrongpassword")
            .err(),
        Some(UserStoreError::InvalidCredentials)
    );
    assert_eq!(
        user_store
            .validate_user("nonexistent@example.com", "password")
            .err(),
        Some(UserStoreError::UserNotFound)
    );
}

#[test]
fn add_user_twice_is_refused_and_keeps_the_first_account() {
    let mut user_store = HashmapUserStore::new();
    let first = User::new("a@example.com".to_string(), "first-password".to_string(), false);
    let second = User::new("a@example.com".to_string(), "second-password".to_string(), true);
    assert_eq!(user_store.add_user(&first), Ok(()));
    assert_eq!(
        user_store.add_user(&second),
        Err(UserStoreError::UserAlreadyExists)
    );
    assert_eq!(user_store.users.len(), 1);
    assert_eq!(user_store.get_user("a@example.com").unwrap(), &first);
    assert_eq!(
        user_store.validate_user("a@example.com", "second-password"),
        Err(UserStoreError::InvalidCredentials)
    );
}

#[test]
fn add_user_keeps_other_accounts() {
    let mut user_store = HashmapUserStore::new();
    let a = User::new("a@example.com".to_string(), "aaaaaaaa".to_string(), false);
    let b = User::new("b@example.com".to_string(), "bbbbbbbb".to_string(), true);
    user_store.add_user(&a).unwrap();
    user_store.add_user(&b).unwrap();
    assert_eq!(user_store.users.len(), 2);
    assert_eq!(user_store.get_user("a@example.com").unwrap(), &a);
    assert_eq!(user_store.get_user("b@example.com").unwrap(), &b);
    assert_eq!(user_store.validate_user("b@example.com", "bbbbbbbb"), Ok(()));
    assert_eq!(
        user_store.validate_user("b@example.com", "aaaaaaaa"),
        Err(UserStoreError::InvalidCredentials)
    );
}

#[test]
fn empty_store_knows_nobody() {
    let user_store = HashmapUserStore::new();
    assert!(user_store.users.is_empty());
    assert_eq!(
        user_store.get_user("").err(),
        Some(UserStoreError::UserNotFound)
    );
    assert_eq!(
        user_store.validate_user("", ""),
        Err(UserStoreError::UserNotFound)
    );
}

#[test]
fn addresses_are_compared_exactly() {
    let mut user_store = HashmapUserStore::new();
    let user = User::new("Test@Example.com".to_string(), "password".to_string(), false);
    user_store.add_user(&user).unwrap();
    assert_eq!(
        user_store.get_user("test@example.com").err(),
        Some(UserStoreError::UserNotFound)
    );
    assert_eq!(
        user_store.validate_user("Test@Example.com", "Password"),
        Err(UserStoreError::InvalidCredentials)
    );
}
