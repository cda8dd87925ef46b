use vstd::hash_map::StringHashMap;
use vstd::prelude::*;

use crate::domain::User;

verus! {

/// What went wrong in a request to the user store.
#[derive(Debug, Clone, Copy, PartialEq, Eq, Structural)]
pub enum UserStoreError {
    UserAlreadyExists,
    UserNotFound,
    InvalidCredentials,
    UnexpectedError,
}

/// The registered accounts, each under its e-mail address.
pub struct HashmapUserStore {
    pub users: StringHashMap<User>,
}

/// The accounts, each under its address.
pub type Users = Map<Seq<char>, User>;

/// Finitely many accounts, each filed under its own address.
pub open spec fn users_wf(users: Users) -> bool {
    &&& users.dom().finite()
    &&& forall|k: Seq<char>| #[trigger] users.contains_key(k) ==> users[k].email@ == k
}

/// The account filed under `email`, or `UserNotFound`.
pub open spec fn lookup_user(users: Users, email: Seq<char>) -> Result<User, UserStoreError> {
    if users.contains_key(email) {
        Ok(users[email])
    } else {
        Err(UserStoreError::UserNotFound)
    }
}

/// Whether `email` and `password` name a registered account: `Ok`, or why not.
pub open spec fn check_credentials(users: Users, email: Seq<char>, password: Seq<char>) -> Result<
    (),
    UserStoreError,
> {
    match lookup_user(users, email) {
        Ok(u) => if u.password@ == password {
            Ok(())
        } else {
            Err(UserStoreError::InvalidCredentials)
        },
        Err(e) => Err(e),
    }
}

/// The accounts after `user` asked to register: added unless its address is taken.
pub open spec fn register(users: Users, user: User) -> Users {
    if users.contains_key(user.email@) {
        users
    } else {
        users.insert(user.email@, user)
    }
}

/// The answer to a registration of `user`.
pub open spec fn register_outcome(users: Users, user: User) -> Result<(), UserStoreError> {
    if users.contains_key(user.email@) {
        Err(UserStoreError::UserAlreadyExists)
    } else {
        Ok(())
    }
}

/// A registration with a free address succeeds, and the address then finds
/// exactly the account that was registered.
pub proof fn lemma_registered_user_is_found(users: Users, user: User)
    requires
        !users.contains_key(user.email@),
    ensures
        register_outcome(users, user) == Ok::<(), UserStoreError>(()),
        lookup_user(register(users, user), user.email@) == Ok::<User, UserStoreError>(user),
{
}

/// A registration with a taken address is refused with `UserAlreadyExists`
/// and changes nothing: the account that came first stays.
pub proof fn lemma_taken_address_changes_nothing(users: Users, user: User)
    requires
        users.contains_key(user.email@),
    ensures
        register_outcome(users, user) == Err::<(), UserStoreError>(
            UserStoreError::UserAlreadyExists,
        ),
        register(users, user) == users,
        lookup_user(register(users, user), user.email@) == lookup_user(users, user.email@),
{
}

/// A registration leaves every other address as it was.
pub proof fn lemma_registration_keeps_other_addresses(users: Users, user: User, other: Seq<char>)
    requires
        other != user.email@,
    ensures
        lookup_user(register(users, user), other) == lookup_user(users, other),
        check_credentials(register(users, user), other, user.password@) == check_credentials(
            users,
            other,
            user.password@,
        ),
{
}

/// Registration keeps every account filed under its own address.
pub proof fn lemma_registration_keeps_store_wf(users: Users, user: User)
    requires
        users_wf(users),
    ensures
        users_wf(register(users, user)),
{
}

/// Right after a registration, its address and a password are accepted
/// exactly when the password is the registered one; a wrong password is
/// refused with `InvalidCredentials`.
pub proof fn lemma_credentials_after_registration(users: Users, user: User, password: Seq<char>)
    requires
        !users.contains_key(user.email@),
    ensures
        check_credentials(register(users, user), user.email@, password) is Ok <==> password
            == user.password@,
        password != user.password@ ==> check_credentials(
            register(users, user),
            user.email@,
            password,
        ) == Err::<(), UserStoreError>(UserStoreError::InvalidCredentials),
{
}

/// An address with no account is refused with `UserNotFound`, whatever the
/// password; accepted credentials always name an account with that password.
pub proof fn lemma_credentials_need_an_account(users: Users, email: Seq<char>, password: Seq<char>)
    ensures
        !users.contains_key(email) ==> check_credentials(users, email, password) == Err::<
            (),
            UserStoreError,
        >(UserStoreError::UserNotFound),
        check_credentials(users, email, password) is Ok ==> lookup_user(users, email) is Ok
            && users[email].password@ == password,
{
}

/// Credentials are accepted exactly when an account is filed under the
/// address and its stored password is the one given; an unknown address is
/// `UserNotFound`, a known one with another password `InvalidCredentials`.
pub proof fn lemma_credentials_rule(users: Users, email: Seq<char>, password: Seq<char>)
    ensures
        check_credentials(users, email, password) is Ok <==> users.contains_key(email)
            && users[email].password@ == password,
        check_credentials(users, email, password) == Err::<(), UserStoreError>(
            UserStoreError::UserNotFound,
        ) <==> !users.contains_key(email),
        check_credentials(users, email, password) == Err::<(), UserStoreError>(
            UserStoreError::InvalidCredentials,
        ) <==> users.contains_key(email) && users[email].password@ != password,
{
}

/// The accounts after each of `users_added`, in order, asked to register.
pub open spec fn register_all(users: Users, users_added: Seq<User>) -> Users
    decreases users_added.len(),
{
    if users_added.len() == 0 {
        users
    } else {
        register(register_all(users, users_added.drop_last()), users_added.last())
    }
}

/// An account once registered is found, unchanged, by its address, whatever
/// registrations come after it.
pub proof fn lemma_registered_user_stays(users: Users, user: User, users_added: Seq<User>)
    requires
        lookup_user(users, user.email@) == Ok::<User, UserStoreError>(user),
    ensures
        lookup_user(register_all(users, users_added), user.email@) == Ok::<User, UserStoreError>(
            user,
        ),
    decreases users_added.len(),
{
    if users_added.len() > 0 {
        lemma_registered_user_stays(users, user, users_added.drop_last());
    }
}

impl View for HashmapUserStore {
    type V = Users;

    open spec fn view(&self) -> Users {
        self.users@
    }
}

impl HashmapUserStore {
    /// The store keeps each account under its own address.
    pub open spec fn wf(&self) -> bool {
        users_wf(self@)
    }

    /// An empty store.
    pub fn new() -> (store: Self)
        ensures
            store@ == Map::<Seq<char>, User>::empty(),
            store.wf(),
    {
        HashmapUserStore { users: StringHashMap::new() }
    }

    /// Registers a copy of `user` under its address, unless the address is taken.
    pub fn add_user(&mut self, user: &User) -> (res: Result<(), UserStoreError>)
        ensures
            res == register_outcome(old(self)@, *user),
            final(self)@ == register(old(self)@, *user),
            old(self).wf() ==> final(self).wf(),
            old(self).wf() && res is Ok ==> final(self)@.len() == old(self)@.len() + 1,
    {
        if self.users.contains_key(user.email.as_str()) {
            return Err(UserStoreError::UserAlreadyExists);
        }
        self.users.insert(user.email.clone(), user.clone());
        Ok(())
    }

    /// The account registered under `email`.
    pub fn get_user(&self, email: &str) -> (res: Result<&User, UserStoreError>)
        ensures
            match res {
                Ok(u) => lookup_user(self@, email@) == Ok::<User, UserStoreError>(*u),
                Err(e) => lookup_user(self@, email@) == Err::<User, UserStoreError>(e),
            },
    {
        match self.users.get(email) {
            Some(u) => Ok(u),
            None => Err(UserStoreError::UserNotFound),
        }
    }

    /// Checks that an account is registered under `email` with `password`.
    pub fn validate_user(&self, email: &str, password: &str) -> (res: Result<(), UserStoreError>)
        ensures
            res == check_credentials(self@, email@, password@),
    {
        let user = self.get_user(email)?;
        let given = password.to_owned();
        if user.password != given {
            return Err(UserStoreError::InvalidCredentials);
        }
        Ok(())
    }
}

impl Default for HashmapUserStore {
    fn default() -> (store: Self)
        ensures
            store@ == Map::<Seq<char>, User>::empty(),
            store.wf(),
    {
        Self::new()
    }
}

} // verus!
