//! The records that request handlers build and show: a user with its
//! credentials, an access, a shortened URL.
use vstd::prelude::*;
use crate::auth::access_granted;
use crate::config::Config;
use crate::hashing::{
    cost_allowed, is_2b_text, salt_chars, salt_text, salt_well_formed, stored_salt_hash, stored_salt_hash_spec,
    verification_hash, verification_hash_spec, HashError, SaltedPassword, DEFAULT_COST,
};
use crate::models;
use crate::time::{now_local, Timestamp};
use vstd::utf8::encode_utf8;

verus! {

/// Relies on rand::random, which draws a value from the thread-local
/// generator; nothing is known of the value.
pub assume_specification<T>[ rand::random::<T> ]() -> (r: T)
    where
        rand::distributions::Standard: rand::distributions::Distribution<T>,
;

/// A user account; its password field holds a salted hash, never the
/// plaintext.
#[derive(Debug, Clone)]
pub struct User {
    pub id: Option<i32>,
    pub username: String,
    pub password: String,
    pub created_at: Timestamp,
    pub salt: String,
}

impl User {
    /// The stored hash is that of the password under the cost and the
    /// stored salt text.
    pub open spec fn created_with(&self, password: Seq<char>, cost: u32) -> bool {
        self.password@ == stored_salt_hash_spec(password, cost, self.salt@)
    }

    /// Builds a user whose password is hashed under the given cost and salt
    /// text, which is stored as it is; fails exactly when bcrypt refuses the
    /// cost.
    pub fn with_salt(
        username: &str,
        password: &str,
        cost: u32,
        salt: &str,
        created_at: Timestamp,
    ) -> (r: Result<User, HashError>)
        ensures
            r is Ok <==> cost_allowed(cost),
            r matches Err(e) ==> e == HashError::CostNotAllowed(cost),
            r matches Ok(u) ==> {
                &&& u.id is None
                &&& u.username@ == username@
                &&& u.created_at == created_at
                &&& u.salt@ == salt@
                &&& u.created_with(password@, cost)
                &&& is_2b_text(u.password@)
            },
    {
        match stored_salt_hash(password, cost, salt) {
            Ok(hash) => Ok(
                User {
                    id: None,
                    username: username.to_owned(),
                    password: hash,
                    created_at,
                    salt: salt.to_owned(),
                },
            ),
            Err(e) => Err(e),
        }
    }

    /// Creates a new user: a salt of sixteen random characters, the
    /// configured cost, the time now.
    pub fn new<C: Config>(config: C, username: &str, password: &str) -> (r: Result<
        User,
        HashError,
    >)
        ensures
            r is Ok <==> cost_allowed(config.hash_cost_view()),
            r matches Err(e) ==> e == HashError::CostNotAllowed(config.hash_cost_view()),
            r matches Ok(u) ==> {
                &&& u.id is None
                &&& u.username@ == username@
                &&& u.created_at.wf()
                &&& salt_well_formed(encode_utf8(u.salt@))
                &&& exists|random: Seq<u8>| random.len() == 16 && u.salt@ == #[trigger] salt_chars(random)
                &&& u.created_with(password@, config.hash_cost_view())
                &&& is_2b_text(u.password@)
            },
    {
        let mut random: [u8; 16] = [0u8; 16];
        let mut i: usize = 0;
        while i < 16
            invariant
                i <= 16,
            decreases 16 - i,
        {
            random[i] = rand::random::<u8>();
            i = i + 1;
        }
        let salt = salt_text(random);
        let cost = config.get_hash_cost();
        let created_at = now_local();
        let r = User::with_salt(username, password, cost, salt.as_str(), created_at);
        proof {
            if r is Ok {
                assert(r.unwrap().salt@ == salt_chars(random@));
            }
        }
        r
    }

    /// Returns the user's password hash.
    pub fn get_password(&self) -> (r: &str)
        ensures
            r@ == self.password@,
    {
        self.password.as_str()
    }

    /// Returns the user's salt.
    pub fn get_salt(&self) -> (r: &str)
        ensures
            r@ == self.salt@,
    {
        self.salt.as_str()
    }

    /// Hashes the given password with the user's salt at the default cost;
    /// a salt of another length than sixteen bytes is cut or zero-padded,
    /// and reported.
    pub fn hash_password(&self, password: &str) -> (r: Result<SaltedPassword, HashError>)
        ensures
            r matches Ok(h) && h.hash@ == verification_hash_spec(password@, self.salt@)
                && h.salt_malformed == !salt_well_formed(encode_utf8(self.salt@)),
    {
        verification_hash(password, self.salt.as_str())
    }

    /// The user in the form the store inserts.
    pub fn into_insertable(self) -> (r: models::UserInsertable)
        ensures
            r.username == self.username,
            r.password == self.password,
            r.created_at == self.created_at,
            r.salt == self.salt,
    {
        models::UserInsertable::new(self.username, self.password, self.created_at, self.salt)
    }
}

/// The stored password of a created user is never a plaintext that lacks
/// the shape of a bcrypt hash string.
pub proof fn lemma_stored_password_not_plaintext(u: User, password: Seq<char>)
    requires
        is_2b_text(u.password@),
        !is_2b_text(password),
    ensures
        u.password@ != password,
{
}

/// A user created at the default cost is let in with its own password: the
/// verification hash reproduces the stored one, also once the user has been
/// stored and read back.
pub proof fn lemma_created_user_verifies(u: User, password: Seq<char>, stored: models::User)
    requires
        u.created_with(password, DEFAULT_COST),
        stored.spec_password() == u.password,
        stored.spec_salt() == u.salt,
    ensures
        u.password@ == verification_hash_spec(password, u.salt@),
        access_granted(Some(stored), password),
{
}

/// One access to a shortened URL.
#[derive(Debug, Clone)]
pub struct Access {
    pub id: Option<i32>,
    pub url_id: i32,
    pub accessed_at: Timestamp,
    pub ip: String,
}

impl Access {
    /// Creates a new access from the given address, at the time now.
    pub fn new(url_id: i32, ip: &str) -> (r: Self)
        ensures
            r.id is None,
            r.url_id == url_id,
            r.ip@ == ip@,
            r.accessed_at.wf(),
    {
        Access { id: None, url_id, accessed_at: now_local(), ip: ip.to_owned() }
    }
}

/// A URL kept by the service, with its count of accesses.
#[derive(Debug, Clone)]
pub struct UrlData {
    pub id: Option<i32>,
    pub url: String,
    pub created_at: Timestamp,
    pub num_accesses: i32,
}

impl UrlData {
    /// Creates a new URL record, created now and not yet accessed.
    pub fn new(url: &str) -> (r: Self)
        ensures
            r.id is None,
            r.url@ == url@,
            r.created_at.wf(),
            r.num_accesses == 0,
    {
        UrlData { id: None, url: url.to_owned(), created_at: now_local(), num_accesses: 0 }
    }
}

/// A stored URL as the shortening answer shows it.
#[derive(Debug)]
pub struct ShortenedUrl {
    pub id: Option<i32>,
    pub url: String,
}

/// The base URL and a path joined by one slash.
pub fn join_url(base: &str, path: &str) -> (r: String)
    ensures
        r@ == base@ + seq!['/'] + path@,
{
    let mut s = base.to_owned();
    s.append("/");
    s.append(path);
    proof {
        reveal_strlit("/");
    }
    s
}

impl ShortenedUrl {
    /// Returns the shortened URL: the configured base URL, a slash, the path.
    pub fn get_shortened_url<C: Config>(&self, config: C) -> (r: String)
        ensures
            r@ == config.base_url_view() + seq!['/'] + self.url@,
    {
        let base = config.get_base_url();
        let r = join_url(base, self.url.as_str());
        assert(r@ == base@ + seq!['/'] + self.url@);
        r
    }

    /// Returns the full URL behind the short one.
    pub fn get_url(&self) -> (r: &str)
        ensures
            r@ == self.url@,
    {
        self.url.as_str()
    }
}

} // verus!
