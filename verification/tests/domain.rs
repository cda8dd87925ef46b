use auth_service::domain::{AuthAPIError, DomainError, Email, Password, User};
use auth_service::services::hashmap_user_store::HashmapUserStore;
use auth_service::{AppState, ErrorResponse};
use std::sync::{Arc, RwLock};

#[test]
fn email_needs_an_at_sign() {
    assert_eq!(Email::parse("test@example.com".to_string()).unwrap().as_str(), "test@example.com");
    assert_eq!(Email::parse("@".to_string()).unwrap().as_str(), "@");
    assert_eq!(Email::parse("invalid-email".to_string()).err().map(|_| ()), Some(()));
    assert!(matches!(Email::parse("".to_string()), Err(DomainError::InvalidEmail)));
}

#[test]
fn password_needs_eight_characters() {
    assert_eq!(Password::parse("password".to_string()).unwrap().as_str(), "password");
    assert!(matches!(Password::parse("passwor".to_string()), Err(DomainError::InvalidPassword)));
    assert!(matches!(Password::parse("".to_string()), Err(DomainError::InvalidPassword)));
    // eight characters, more than eight bytes
    assert!(Password::parse("ééééééé".to_string()).is_err());
    assert!(Password::parse("éééééééé".to_string()).is_ok());
}

#[test]
fn user_new_keeps_its_parts() {
    let user = User::new("a@b".to_string(), "secret12".to_string(), true);
    assert_eq!(user.email, "a@b");
    assert_eq!(user.password, "secret12");
    assert!(user.requires_2fa);
    assert_eq!(user.clone(), user);
}

#[test]
fn each_error_has_its_status_and_message() {
    let cases = [
        (AuthAPIError::UserAlreadyExists, 409, "User already exists"),
        (AuthAPIError::InvalidCredentials, 400, "Invalid credentials"),
        (AuthAPIError::IncorrectCredentials, 401, "Incorrect credentials"),
        (AuthAPIError::UnexpectedError, 500, "Unexpected error"),
    ];
    for (err, status, message) in cases {
        assert_eq!(
            err.error_response(),
            (status, ErrorResponse { error: message.to_string() })
        );
    }
}

#[test]
fn app_state_shares_the_store() {
    let store = Arc::new(RwLock::new(HashmapUserStore::default()));
    let state = AppState::new(store.clone());
    assert!(Arc::ptr_eq(&state.user_store, &store));
    let copy = state.clone();
    assert!(Arc::ptr_eq(&copy.user_store, &store));
    let user = User::new("a@b".to_string(), "password".to_string(), false);
    copy.user_store.write().unwrap().add_user(&user).unwrap();
    assert_eq!(store.read().unwrap().get_user("a@b").unwrap(), &user);
}
