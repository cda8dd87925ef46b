use vstd::prelude::*;
use vstd::string::StrSliceExecFns;

verus! {

/// A registered account: the address it signs in with, its password and
/// whether it asked for a second factor.
#[derive(Debug, PartialEq)]
pub struct User {
    pub email: String,
    pub password: String,
    pub requires_2fa: bool,
}

impl User {
    /// Builds an account from its three parts, unchanged.
    pub fn new(email: String, password: String, requires_2fa: bool) -> (user: User)
        ensures
            user.email == email,
            user.password == password,
            user.requires_2fa == requires_2fa,
    {
        User { email, password, requires_2fa }
    }
}

impl Clone for User {
    fn clone(&self) -> (res: Self)
        ensures
            res == *self,
    {
        User {
            email: self.email.clone(),
            password: self.password.clone(),
            requires_2fa: self.requires_2fa,
        }
    }
}

/// An address is accepted when it holds an `@`.
pub open spec fn is_valid_email(s: Seq<char>) -> bool {
    s.contains('@')
}

/// A password is accepted when it has at least eight characters.
pub open spec fn is_valid_password(s: Seq<char>) -> bool {
    s.len() >= 8
}

/// An address is well-formed exactly when one of its characters is `@`.
pub proof fn lemma_email_rule(s: Seq<char>)
    ensures
        is_valid_email(s) <==> exists|i: int| 0 <= i < s.len() && s[i] == '@',
{
}

/// A password is well-formed exactly when it has eight characters or more,
/// however long it is.
pub proof fn lemma_password_rule(s: Seq<char>)
    ensures
        is_valid_password(s) <==> s.len() >= 8,
{
}

/// Why a piece of user input was refused.
#[derive(Debug, Clone, Copy, PartialEq, Eq, Structural)]
pub enum DomainError {
    InvalidEmail,
    InvalidPassword,
}

/// An e-mail address that has been checked by [`Email::parse`].
pub struct Email(String);

impl Email {
    #[verifier::type_invariant]
    spec fn valid(self) -> bool {
        is_valid_email(self.0@)
    }

    /// The characters of the address.
    pub closed spec fn spec_chars(self) -> Seq<char> {
        self.0@
    }

    /// Accepts `s` exactly when it holds an `@`.
    pub fn parse(s: String) -> (res: Result<Email, DomainError>)
        ensures
            res matches Ok(e) ==> e.spec_chars() == s@,
            res is Ok <==> is_valid_email(s@),
            res is Ok <==> exists|i: int| 0 <= i < s@.len() && s@[i] == '@',
            res matches Err(err) ==> err == DomainError::InvalidEmail,
    {
        let n = s.as_str().unicode_len();
        let mut i: usize = 0;
        while i < n
            invariant
                n == s@.len(),
                i <= n,
                forall|j: int| 0 <= j < i ==> s@[j] != '@',
            decreases n - i,
        {
            if s.as_str().get_char(i) == '@' {
                assert(s@[i as int] == '@');
                return Ok(Email(s));
            }
            i = i + 1;
        }
        Err(DomainError::InvalidEmail)
    }

    /// The address as text.
    pub fn as_str(&self) -> (r: &str)
        ensures
            r@ == self.spec_chars(),
            is_valid_email(r@),
    {
        proof {
            use_type_invariant(self);
        }
        self.0.as_str()
    }
}

/// A password that has been checked by [`Password::parse`].
pub struct Password(String);

impl Password {
    #[verifier::type_invariant]
    spec fn valid(self) -> bool {
        is_valid_password(self.0@)
    }

    /// The characters of the password.
    pub closed spec fn spec_chars(self) -> Seq<char> {
        self.0@
    }

    /// Accepts `s` exactly when it has at least eight characters.
    pub fn parse(s: String) -> (res: Result<Password, DomainError>)
        ensures
            res matches Ok(p) ==> p.spec_chars() == s@,
            res is Ok <==> is_valid_password(s@),
            res is Ok <==> s@.len() >= 8,
            res matches Err(err) ==> err == DomainError::InvalidPassword,
    {
        if s.as_str().unicode_len() >= 8 {
            Ok(Password(s))
        } else {
            Err(DomainError::InvalidPassword)
        }
    }

    /// The password as text.
    pub fn as_str(&self) -> (r: &str)
        ensures
            r@ == self.spec_chars(),
            is_valid_password(r@),
    {
        proof {
            use_type_invariant(self);
        }
        self.0.as_str()
    }
}

/// A store of tokens that may no longer be used.
pub trait BannedTokenStore {
    /// The tokens banned so far.
    spec fn banned_set(&self) -> Set<Seq<char>>;

    /// Bans `token`; the others keep their standing.
    fn add_token(&mut self, token: String)
        ensures
            final(self).banned_set() == old(self).banned_set().insert(token@),
    ;

    /// Whether `token` has been banned.
    fn is_token_banned(&self, token: &str) -> (banned: bool)
        ensures
            banned == self.banned_set().contains(token@),
    ;
}

/// The errors that the service answers a request with.
#[derive(Debug, Clone, Copy, PartialEq, Eq, Structural)]
pub enum AuthAPIError {
    UserAlreadyExists,
    InvalidCredentials,
    IncorrectCredentials,
    UnexpectedError,
}

/// The HTTP status that answers each error.
pub open spec fn error_status(e: AuthAPIError) -> u16 {
    match e {
        AuthAPIError::UserAlreadyExists => 409,
        AuthAPIError::InvalidCredentials => 400,
        AuthAPIError::IncorrectCredentials => 401,
        AuthAPIError::UnexpectedError => 500,
    }
}

/// The message that the answer to each error carries.
pub open spec fn error_message(e: AuthAPIError) -> Seq<char> {
    match e {
        AuthAPIError::UserAlreadyExists => "User already exists"@,
        AuthAPIError::InvalidCredentials => "Invalid credentials"@,
        AuthAPIError::IncorrectCredentials => "Incorrect credentials"@,
        AuthAPIError::UnexpectedError => "Unexpected error"@,
    }
}

/// Each error is answered with a status of its own: a client error for all
/// but `UnexpectedError`, which is a server error.
pub proof fn lemma_error_statuses(a: AuthAPIError, b: AuthAPIError)
    ensures
        a != b ==> error_status(a) != error_status(b),
        a != AuthAPIError::UnexpectedError <==> 400 <= error_status(a) < 500,
{
}

} // verus!
