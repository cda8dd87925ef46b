use vstd::prelude::*;

use crate::domain::{is_valid_email, is_valid_password, AuthAPIError, Email, Password, User};
use crate::services::hashmap_user_store::{
    check_credentials, lemma_credentials_rule, lemma_credentials_after_registration, register, HashmapUserStore, Users,
};

verus! {

/// The credentials that a sign-in request carries.
pub struct LoginRequest {
    pub email: String,
    pub password: String,
}

/// The body of a successful sign-in.
#[derive(Debug, PartialEq)]
pub struct LoginResponse {
    pub message: String,
}

/// The answer to a sign-in with `email` and `password`: credentials that are
/// malformed are invalid, well-formed ones that match no account are incorrect.
pub open spec fn login_outcome(users: Users, email: Seq<char>, password: Seq<char>) -> Result<
    (),
    AuthAPIError,
> {
    if !is_valid_email(email) || !is_valid_password(password) {
        Err(AuthAPIError::InvalidCredentials)
    } else if check_credentials(users, email, password) is Ok {
        Ok(())
    } else {
        Err(AuthAPIError::IncorrectCredentials)
    }
}

/// A sign-in succeeds exactly when the address holds an `@`, the password
/// has at least eight characters, and an account is filed under the address
/// with that very password, whatever password the account was stored with.
/// Malformed credentials are `InvalidCredentials`; well-formed ones that match
/// no account, or not its password, are `IncorrectCredentials`.
pub proof fn lemma_login_rule(users: Users, email: Seq<char>, password: Seq<char>)
    ensures
        login_outcome(users, email, password) is Ok ==> users.contains_key(email)
            && users[email].password@ == password,
        login_outcome(users, email, password) is Ok <==> (exists|i: int|
            0 <= i < email.len() && email[i] == '@') && password.len() >= 8 && users.contains_key(
            email,
        ) && users[email].password@ == password,
        login_outcome(users, email, password) == Err::<(), AuthAPIError>(
            AuthAPIError::InvalidCredentials,
        ) <==> !(exists|i: int| 0 <= i < email.len() && email[i] == '@') || password.len() < 8,
        login_outcome(users, email, password) == Err::<(), AuthAPIError>(
            AuthAPIError::IncorrectCredentials,
        ) <==> (exists|i: int| 0 <= i < email.len() && email[i] == '@') && password.len() >= 8
            && !(users.contains_key(email) && users[email].password@ == password),
{
    lemma_credentials_rule(users, email, password);
}

/// Credentials that are malformed are refused with `InvalidCredentials`,
/// whatever the store holds.
pub proof fn lemma_malformed_login_is_invalid(users: Users, email: Seq<char>, password: Seq<char>)
    requires
        !is_valid_email(email) || !is_valid_password(password),
    ensures
        login_outcome(users, email, password) == Err::<(), AuthAPIError>(
            AuthAPIError::InvalidCredentials,
        ),
{
}

/// A well-formed address that no account has is refused with
/// `IncorrectCredentials`.
pub proof fn lemma_login_with_unknown_address(users: Users, email: Seq<char>, password: Seq<char>)
    requires
        is_valid_email(email),
        is_valid_password(password),
        !users.contains_key(email),
    ensures
        login_outcome(users, email, password) == Err::<(), AuthAPIError>(
            AuthAPIError::IncorrectCredentials,
        ),
{
}

/// After an account with a well-formed address and password registers, a
/// sign-in with the same address succeeds exactly with its password; a
/// well-formed wrong password is refused with `IncorrectCredentials`.
pub proof fn lemma_login_after_signup(users: Users, user: User, password: Seq<char>)
    requires
        !users.contains_key(user.email@),
        is_valid_email(user.email@),
        is_valid_password(user.password@),
    ensures
        login_outcome(users.insert(user.email@, user), user.email@, user.password@) == Ok::<
            (),
            AuthAPIError,
        >(()),
        is_valid_password(password) && password != user.password@ ==> login_outcome(
            users.insert(user.email@, user),
            user.email@,
            password,
        ) == Err::<(), AuthAPIError>(AuthAPIError::IncorrectCredentials),
{
    assert(register(users, user) == users.insert(user.email@, user));
    lemma_credentials_after_registration(users, user, user.password@);
    lemma_credentials_after_registration(users, user, password);
}

/// Signs in with the credentials of `request` against `store`.
pub fn login(store: &HashmapUserStore, request: LoginRequest) -> (res: Result<
    LoginResponse,
    AuthAPIError,
>)
    ensures
        match res {
            Ok(r) => login_outcome(store@, request.email@, request.password@) is Ok
                && r.message@ == "Login successful!"@ && store@.contains_key(request.email@)
                && store@[request.email@].password@ == request.password@,
            Err(e) => login_outcome(store@, request.email@, request.password@) == Err::<
                (),
                AuthAPIError,
            >(e),
        },
{
    let email = match Email::parse(request.email) {
        Ok(e) => e,
        Err(_) => return Err(AuthAPIError::InvalidCredentials),
    };
    let password = match Password::parse(request.password) {
        Ok(p) => p,
        Err(_) => return Err(AuthAPIError::InvalidCredentials),
    };
    if !store.validate_user(email.as_str(), password.as_str()).is_ok() {
        return Err(AuthAPIError::IncorrectCredentials);
    }
    if store.get_user(email.as_str()).is_err() {
        return Err(AuthAPIError::IncorrectCredentials);
    }
    Ok(LoginResponse { message: "Login successful!".to_owned() })
}

} // verus!
