use std::sync::{Arc, RwLock};
use vstd::prelude::*;

pub mod domain;
pub mod routes;
pub mod services;

use crate::domain::{error_message, error_status, AuthAPIError};
use crate::services::hashmap_user_store::HashmapUserStore;

verus! {

/// A reader-writer lock of std: it lets the request handlers share one
/// store. Its contents are opaque to the proofs; the library only carries it.
#[verifier::external_type_specification]
#[verifier::external_body]
#[verifier::reject_recursive_types(T)]
pub struct ExRwLock<T: ?Sized>(RwLock<T>);

/// The user store, shared between the request handlers.
pub type UserStoreType = Arc<RwLock<HashmapUserStore>>;

/// What every request handler is given.
pub struct AppState {
    pub user_store: UserStoreType,
}

impl Clone for AppState {
    /// Another handle on the same store.
    fn clone(&self) -> (res: Self)
        ensures
            res.user_store == self.user_store,
    {
        AppState { user_store: self.user_store.clone() }
    }
}

impl AppState {
    /// The state that shares `user_store`.
    pub fn new(user_store: UserStoreType) -> (state: Self)
        ensures
            state.user_store == user_store,
    {
        Self { user_store }
    }
}

/// The body of every refused request: the error's message.
#[derive(Debug, PartialEq)]
pub struct ErrorResponse {
    pub error: String,
}

impl AuthAPIError {
    /// The HTTP status and the body that answer this error.
    pub fn error_response(&self) -> (res: (u16, ErrorResponse))
        ensures
            res.0 == error_status(*self),
            res.1.error@ == error_message(*self),
    {
        match self {
            AuthAPIError::UserAlreadyExists => (409, ErrorResponse { error: "User already exists".to_owned() }),
            AuthAPIError::InvalidCredentials => (400, ErrorResponse { error: "Invalid credentials".to_owned() }),
            AuthAPIError::IncorrectCredentials => (401, ErrorResponse { error: "Incorrect credentials".to_owned() }),
            AuthAPIError::UnexpectedError => (500, ErrorResponse { error: "Unexpected error".to_owned() }),
        }
    }
}

} // verus!
