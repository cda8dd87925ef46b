use vstd::prelude::*;

use crate::domain::User;
use crate::services::hashmap_user_store::HashmapUserStore;

verus! {

/// What a registration request carries.
pub struct SignupRequest {
    pub email: String,
    pub password: String,
    pub requires_2fa: bool,
}

/// The body of a successful registration.
#[derive(Debug, PartialEq)]
pub struct SignupResponse {
    pub message: String,
}

/// Registers the account that `request` describes. The address must be free:
/// registering a taken one is a failure that the service does not answer.
pub fn signup(store: &mut HashmapUserStore, request: SignupRequest) -> (res: SignupResponse)
    requires
        !old(store)@.contains_key(request.email@),
    ensures
        final(store)@ == old(store)@.insert(
            request.email@,
            (User {
                email: request.email,
                password: request.password,
                requires_2fa: request.requires_2fa,
            }),
        ),
        old(store).wf() ==> final(store).wf(),
        res.message@ == "User created successfully!"@,
{
    let user = User::new(request.email, request.password, request.requires_2fa);
    let _ = store.add_user(&user);
    SignupResponse { message: "User created successfully!".to_owned() }
}

} // verus!
