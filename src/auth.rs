//! Checking a username and password against a stored user.
use vstd::prelude::*;
use crate::hashing::{verification_hash_spec, HashError};
use crate::models::User;

verus! {

/// A username and a plaintext password offered for checking.
pub trait AuthCredential {
    spec fn username_view(&self) -> Seq<char>;

    spec fn password_view(&self) -> Seq<char>;

    fn get_username(&self) -> (r: &str)
        ensures
            r@ == self.username_view(),
    ;

    fn get_password(&self) -> (r: &str)
        ensures
            r@ == self.password_view(),
    ;
}

} // verus!

verus! {

/// Whether a password opens a looked-up user: there is one, and the
/// verification hash of the password under its salt is its stored hash.
pub open spec fn access_granted(user: Option<User>, password: Seq<char>) -> bool {
    match user {
        Some(u) => verification_hash_spec(password, u.spec_salt()@) == u.spec_password()@,
        None => false,
    }
}

/// Decides access once the user has been looked up; an unknown user is
/// denied without hashing.
pub fn check_access(user: Option<User>, password: &str) -> (r: Result<bool, HashError>)
    ensures
        r == Ok::<bool, HashError>(access_granted(user, password@)),
{
    match user {
        Some(u) => u.verify_password(password),
        None => Ok(false),
    }
}

/// A store of users that can check credentials against them.
pub trait Auth {
    /// Returns the user with the given username.
    fn get_user(&self, username: &str) -> (r: Option<User>)
        ensures
            r matches Some(u) ==> u.spec_username()@ == username@,
    ;

    /// Checks if the user has access to the application.
    fn has_access<C: AuthCredential>(&self, credential: C) -> (r: Result<bool, HashError>)
        ensures
            r is Ok,
            r == Ok::<bool, HashError>(true) ==> exists|u: User|
                u.spec_username()@ == credential.username_view() && #[trigger] access_granted(
                    Some(u),
                    credential.password_view(),
                ),
    {
        let user = self.get_user(credential.get_username());
        let r = check_access(user, credential.get_password());
        proof {
            if r == Ok::<bool, HashError>(true) {
                assert(access_granted(Some(user.unwrap()), credential.password_view()));
            }
        }
        r
    }
}

/// A username and a password as a user typed them.
#[derive(Debug)]
pub struct UserAuthCredential {
    username: String,
    password: String,
}

impl UserAuthCredential {
    pub closed spec fn spec_username(&self) -> Seq<char> {
        self.username@
    }

    pub closed spec fn spec_password(&self) -> Seq<char> {
        self.password@
    }

    /// Creates a new `UserAuthCredential` object.
    pub fn new(username: &str, password: &str) -> (r: Self)
        ensures
            r.spec_username() == username@,
            r.spec_password() == password@,
    {
        UserAuthCredential { username: username.to_owned(), password: password.to_owned() }
    }

    /// Returns the username.
    pub fn get_username(&self) -> (r: &str)
        ensures
            r@ == self.spec_username(),
    {
        self.username.as_str()
    }

    /// Returns the password.
    pub fn get_password(&self) -> (r: &str)
        ensures
            r@ == self.spec_password(),
    {
        self.password.as_str()
    }
}

impl AuthCredential for UserAuthCredential {
    open spec fn username_view(&self) -> Seq<char> {
        self.spec_username()
    }

    open spec fn password_view(&self) -> Seq<char> {
        self.spec_password()
    }

    fn get_username(&self) -> (r: &str) {
        self.username.as_str()
    }

    fn get_password(&self) -> (r: &str) {
        self.password.as_str()
    }
}

/// A user whose stored hash is the verification hash of a password under
/// its own salt is let in with that password; no user means no access.
pub proof fn lemma_credential_check(user: User, password: Seq<char>)
    requires
        user.spec_password()@ == verification_hash_spec(password, user.spec_salt()@),
    ensures
        access_granted(Some(user), password),
        !access_granted(None, password),
{
}

} // verus!
