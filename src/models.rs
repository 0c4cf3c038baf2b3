//! The stored entities: for each, a capability trait of read accessors, an
//! insertable form without identifier, a queryable form with one, and the
//! conversion from the second to the first.
use vstd::prelude::*;
use crate::auth::AuthCredential;
use crate::hashing::{
    salt_well_formed, verification_hash, verification_hash_spec, HashError, SaltedPassword,
};
use vstd::utf8::encode_utf8;
use crate::time::Timestamp;

verus! {

/// Read access to the fields of a user.
pub trait UserTrait {
    spec fn username_value(&self) -> String;

    spec fn password_value(&self) -> String;

    spec fn created_at_value(&self) -> Timestamp;

    spec fn salt_value(&self) -> String;

    fn username(&self) -> (r: &String)
        ensures
            *r == self.username_value(),
    ;

    fn password(&self) -> (r: &String)
        ensures
            *r == self.password_value(),
    ;

    fn created_at(&self) -> (r: &Timestamp)
        ensures
            *r == self.created_at_value(),
    ;

    fn salt(&self) -> (r: &String)
        ensures
            *r == self.salt_value(),
    ;
}

/// A user not yet stored.
#[derive(Debug, Clone)]
pub struct UserInsertable {
    pub username: String,
    pub password: String,
    pub created_at: Timestamp,
    pub salt: String,
}

/// A stored user, with the identifier the store gave it.
#[derive(Debug, Clone)]
pub struct User {
    id: i32,
    username: String,
    password: String,
    created_at: Timestamp,
    salt: String,
}

impl UserInsertable {
    pub fn new(username: String, password: String, created_at: Timestamp, salt: String) -> (r:
        Self)
        ensures
            r.username == username,
            r.password == password,
            r.created_at == created_at,
            r.salt == salt,
    {
        UserInsertable { username, password, created_at, salt }
    }
}

impl User {
    pub closed spec fn spec_id(&self) -> i32 {
        self.id
    }

    pub closed spec fn spec_username(&self) -> String {
        self.username
    }

    pub closed spec fn spec_password(&self) -> String {
        self.password
    }

    pub closed spec fn spec_created_at(&self) -> Timestamp {
        self.created_at
    }

    pub closed spec fn spec_salt(&self) -> String {
        self.salt
    }

    pub fn id(&self) -> (r: i32)
        ensures
            r == self.spec_id(),
    {
        self.id
    }

    pub fn new(
        id: i32,
        username: String,
        password: String,
        created_at: Timestamp,
        salt: String,
    ) -> (r: Self)
        ensures
            r.spec_id() == id,
            r.spec_username() == username,
            r.spec_password() == password,
            r.spec_created_at() == created_at,
            r.spec_salt() == salt,
    {
        User { id, username, password, created_at, salt }
    }

    /// Hashes the given password with the user's salt at the default cost;
    /// a salt of another length than sixteen bytes is cut or zero-padded,
    /// and reported.
    pub fn hash_password(&self, password: &str) -> (r: Result<SaltedPassword, HashError>)
        ensures
            r matches Ok(h) && h.hash@ == verification_hash_spec(password@, self.spec_salt()@)
                && h.salt_malformed == !salt_well_formed(encode_utf8(self.spec_salt()@)),
    {
        verification_hash(password, self.salt.as_str())
    }

    /// Whether a password hashes, under this user's salt, to the stored hash.
    pub fn verify_password(&self, password: &str) -> (r: Result<bool, HashError>)
        ensures
            r == Ok::<bool, HashError>(
                verification_hash_spec(password@, self.spec_salt()@) == self.spec_password()@,
            ),
    {
        match self.hash_password(password) {
            Ok(h) => Ok(h.hash == self.password),
            Err(e) => Err(e),
        }
    }
}

impl UserTrait for UserInsertable {
    open spec fn username_value(&self) -> String {
        self.username
    }

    open spec fn password_value(&self) -> String {
        self.password
    }

    open spec fn created_at_value(&self) -> Timestamp {
        self.created_at
    }

    open spec fn salt_value(&self) -> String {
        self.salt
    }

    fn username(&self) -> (r: &String) {
        &self.username
    }

    fn password(&self) -> (r: &String) {
        &self.password
    }

    fn created_at(&self) -> (r: &Timestamp) {
        &self.created_at
    }

    fn salt(&self) -> (r: &String) {
        &self.salt
    }
}

impl UserTrait for User {
    open spec fn username_value(&self) -> String {
        self.spec_username()
    }

    open spec fn password_value(&self) -> String {
        self.spec_password()
    }

    open spec fn created_at_value(&self) -> Timestamp {
        self.spec_created_at()
    }

    open spec fn salt_value(&self) -> String {
        self.spec_salt()
    }

    fn username(&self) -> (r: &String) {
        &self.username
    }

    fn password(&self) -> (r: &String) {
        &self.password
    }

    fn created_at(&self) -> (r: &Timestamp) {
        &self.created_at
    }

    fn salt(&self) -> (r: &String) {
        &self.salt
    }
}

impl AuthCredential for User {
    open spec fn username_view(&self) -> Seq<char> {
        self.spec_username()@
    }

    open spec fn password_view(&self) -> Seq<char> {
        self.spec_password()@
    }

    fn get_username(&self) -> (r: &str) {
        self.username.as_str()
    }

    fn get_password(&self) -> (r: &str) {
        self.password.as_str()
    }
}

impl From<User> for UserInsertable {
    fn from(user: User) -> (r: Self) {
        UserInsertable {
            username: user.username,
            password: user.password,
            created_at: user.created_at,
            salt: user.salt,
        }
    }
}

impl vstd::std_specs::convert::FromSpecImpl<User> for UserInsertable {
    open spec fn obeys_from_spec() -> bool {
        true
    }

    open spec fn from_spec(user: User) -> Self {
        UserInsertable {
            username: user.spec_username(),
            password: user.spec_password(),
            created_at: user.spec_created_at(),
            salt: user.spec_salt(),
        }
    }
}

} // verus!

verus! {
/// Read access to the fields of an access to a shortened URL.
pub trait AccessTrait {
    spec fn url_id_value(&self) -> i32;

    spec fn accessed_at_value(&self) -> Timestamp;

    spec fn ip_value(&self) -> String;

    fn url_id(&self) -> (r: &i32)
        ensures
            *r == self.url_id_value(),
    ;

    fn accessed_at(&self) -> (r: &Timestamp)
        ensures
            *r == self.accessed_at_value(),
    ;

    fn ip(&self) -> (r: &String)
        ensures
            *r == self.ip_value(),
    ;
}

/// An access to a shortened URL, not yet stored.
#[derive(Debug, Clone)]
pub struct AccessInsertable {
    pub url_id: i32,
    pub accessed_at: Timestamp,
    pub ip: String,
}

impl AccessInsertable {
    pub fn new(url_id: i32, accessed_at: Timestamp, ip: String) -> (r: Self)
        ensures
            r.url_id == url_id,
            r.accessed_at == accessed_at,
            r.ip == ip,
    {
        AccessInsertable { url_id, accessed_at, ip }
    }
}

impl AccessTrait for AccessInsertable {
    open spec fn url_id_value(&self) -> i32 {
        self.url_id
    }

    open spec fn accessed_at_value(&self) -> Timestamp {
        self.accessed_at
    }

    open spec fn ip_value(&self) -> String {
        self.ip
    }

    fn url_id(&self) -> (r: &i32) {
        &self.url_id
    }

    fn accessed_at(&self) -> (r: &Timestamp) {
        &self.accessed_at
    }

    fn ip(&self) -> (r: &String) {
        &self.ip
    }
}

/// An access to a shortened URL, stored, with the identifier the store gave it.
#[derive(Debug, Clone)]
pub struct Access {
    id: i32,
    url_id: i32,
    accessed_at: Timestamp,
    ip: String,
}

impl Access {
    pub closed spec fn spec_id(&self) -> i32 {
        self.id
    }

    pub closed spec fn spec_url_id(&self) -> i32 {
        self.url_id
    }

    pub closed spec fn spec_accessed_at(&self) -> Timestamp {
        self.accessed_at
    }

    pub closed spec fn spec_ip(&self) -> String {
        self.ip
    }

    pub fn new(id: i32, url_id: i32, accessed_at: Timestamp, ip: String) -> (r: Self)
        ensures
            r.spec_id() == id,
            r.spec_url_id() == url_id,
            r.spec_accessed_at() == accessed_at,
            r.spec_ip() == ip,
    {
        Access { id, url_id, accessed_at, ip }
    }

    pub fn id(&self) -> (r: i32)
        ensures
            r == self.spec_id(),
    {
        self.id
    }
}

impl AccessTrait for Access {
    open spec fn url_id_value(&self) -> i32 {
        self.spec_url_id()
    }

    open spec fn accessed_at_value(&self) -> Timestamp {
        self.spec_accessed_at()
    }

    open spec fn ip_value(&self) -> String {
        self.spec_ip()
    }

    fn url_id(&self) -> (r: &i32) {
        &self.url_id
    }

    fn accessed_at(&self) -> (r: &Timestamp) {
        &self.accessed_at
    }

    fn ip(&self) -> (r: &String) {
        &self.ip
    }
}

impl From<Access> for AccessInsertable {
    fn from(v: Access) -> (r: Self) {
        AccessInsertable {
            url_id: v.url_id,
            accessed_at: v.accessed_at,
            ip: v.ip,
        }
    }
}

impl vstd::std_specs::convert::FromSpecImpl<Access> for AccessInsertable {
    open spec fn obeys_from_spec() -> bool {
        true
    }

    open spec fn from_spec(v: Access) -> Self {
        AccessInsertable {
            url_id: v.spec_url_id(),
            accessed_at: v.spec_accessed_at(),
            ip: v.spec_ip(),
        }
    }
}

/// Read access to the fields of a shortened URL.
pub trait UrlDataTrait {
    spec fn url_value(&self) -> String;

    spec fn created_at_value(&self) -> Timestamp;

    spec fn num_accesses_value(&self) -> i32;

    fn url(&self) -> (r: &String)
        ensures
            *r == self.url_value(),
    ;

    fn created_at(&self) -> (r: &Timestamp)
        ensures
            *r == self.created_at_value(),
    ;

    fn num_accesses(&self) -> (r: &i32)
        ensures
            *r == self.num_accesses_value(),
    ;
}

/// A shortened URL, not yet stored.
#[derive(Debug, Clone)]
pub struct UrlDataInsertable {
    pub url: String,
    pub created_at: Timestamp,
    pub num_accesses: i32,
}

impl UrlDataInsertable {
    pub fn new(url: String, created_at: Timestamp, num_accesses: i32) -> (r: Self)
        ensures
            r.url == url,
            r.created_at == created_at,
            r.num_accesses == num_accesses,
    {
        UrlDataInsertable { url, created_at, num_accesses }
    }
}

impl UrlDataTrait for UrlDataInsertable {
    open spec fn url_value(&self) -> String {
        self.url
    }

    open spec fn created_at_value(&self) -> Timestamp {
        self.created_at
    }

    open spec fn num_accesses_value(&self) -> i32 {
        self.num_accesses
    }

    fn url(&self) -> (r: &String) {
        &self.url
    }

    fn created_at(&self) -> (r: &Timestamp) {
        &self.created_at
    }

    fn num_accesses(&self) -> (r: &i32) {
        &self.num_accesses
    }
}

/// A shortened URL, stored, with the identifier the store gave it.
#[derive(Debug, Clone)]
pub struct UrlData {
    id: i32,
    url: String,
    created_at: Timestamp,
    num_accesses: i32,
}

impl UrlData {
    pub closed spec fn spec_id(&self) -> i32 {
        self.id
    }

    pub closed spec fn spec_url(&self) -> String {
        self.url
    }

    pub closed spec fn spec_created_at(&self) -> Timestamp {
        self.created_at
    }

    pub closed spec fn spec_num_accesses(&self) -> i32 {
        self.num_accesses
    }

    pub fn new(id: i32, url: String, created_at: Timestamp, num_accesses: i32) -> (r: Self)
        ensures
            r.spec_id() == id,
            r.spec_url() == url,
            r.spec_created_at() == created_at,
            r.spec_num_accesses() == num_accesses,
    {
        UrlData { id, url, created_at, num_accesses }
    }

    pub fn id(&self) -> (r: i32)
        ensures
            r == self.spec_id(),
    {
        self.id
    }
}

impl UrlDataTrait for UrlData {
    open spec fn url_value(&self) -> String {
        self.spec_url()
    }

    open spec fn created_at_value(&self) -> Timestamp {
        self.spec_created_at()
    }

    open spec fn num_accesses_value(&self) -> i32 {
        self.spec_num_accesses()
    }

    fn url(&self) -> (r: &String) {
        &self.url
    }

    fn created_at(&self) -> (r: &Timestamp) {
        &self.created_at
    }

    fn num_accesses(&self) -> (r: &i32) {
        &self.num_accesses
    }
}

impl From<UrlData> for UrlDataInsertable {
    fn from(v: UrlData) -> (r: Self) {
        UrlDataInsertable {
            url: v.url,
            created_at: v.created_at,
            num_accesses: v.num_accesses,
        }
    }
}

impl vstd::std_specs::convert::FromSpecImpl<UrlData> for UrlDataInsertable {
    open spec fn obeys_from_spec() -> bool {
        true
    }

    open spec fn from_spec(v: UrlData) -> Self {
        UrlDataInsertable {
            url: v.spec_url(),
            created_at: v.spec_created_at(),
            num_accesses: v.spec_num_accesses(),
        }
    }
}

/// Converting a stored user to its insertable form keeps every field but
/// the identifier.
pub proof fn lemma_user_conversion(u: User)
    ensures
        ({
            let i = <UserInsertable as vstd::std_specs::convert::FromSpec<User>>::from_spec(u);
            i.username == u.spec_username() && i.password == u.spec_password() && i.created_at
                == u.spec_created_at() && i.salt == u.spec_salt()
        }),
{
}

/// Converting a stored access to its insertable form keeps every field but
/// the identifier.
pub proof fn lemma_access_conversion(a: Access)
    ensures
        ({
            let i = <AccessInsertable as vstd::std_specs::convert::FromSpec<Access>>::from_spec(a);
            i.url_id == a.spec_url_id() && i.accessed_at == a.spec_accessed_at() && i.ip == a.spec_ip()
        }),
{
}

/// Converting a stored URL to its insertable form keeps every field but
/// the identifier.
pub proof fn lemma_url_data_conversion(d: UrlData)
    ensures
        ({
            let i = <UrlDataInsertable as vstd::std_specs::convert::FromSpec<UrlData>>::from_spec(d);
            i.url == d.spec_url() && i.created_at == d.spec_created_at() && i.num_accesses
                == d.spec_num_accesses()
        }),
{
}

impl User {
    /// What an update writes: the identifier that locates the row, and the
    /// whole insertable form, so every other field is overwritten.
    pub fn into_update(self) -> (r: (i32, UserInsertable))
        ensures
            r.0 == self.spec_id(),
            r.1.username == self.spec_username(),
            r.1.password == self.spec_password(),
            r.1.created_at == self.spec_created_at(),
            r.1.salt == self.spec_salt(),
    {
        let id = self.id;
        (id, UserInsertable::from(self))
    }
}

impl Access {
    /// What an update writes: the identifier that locates the row, and the
    /// whole insertable form, so every other field is overwritten.
    pub fn into_update(self) -> (r: (i32, AccessInsertable))
        ensures
            r.0 == self.spec_id(),
            r.1.url_id == self.spec_url_id(),
            r.1.accessed_at == self.spec_accessed_at(),
            r.1.ip == self.spec_ip(),
    {
        let id = self.id;
        (id, AccessInsertable::from(self))
    }
}

impl UrlData {
    /// What an update writes: the identifier that locates the row, and the
    /// whole insertable form, so every other field is overwritten.
    pub fn into_update(self) -> (r: (i32, UrlDataInsertable))
        ensures
            r.0 == self.spec_id(),
            r.1.url == self.spec_url(),
            r.1.created_at == self.spec_created_at(),
            r.1.num_accesses == self.spec_num_accesses(),
    {
        let id = self.id;
        (id, UrlDataInsertable::from(self))
    }
}

/// Two stored records that differ at most in their identifier convert to
/// the same insertable form.
pub proof fn lemma_user_conversion_ignores_id(a: User, b: User)
    requires
        a.spec_username() == b.spec_username() && a.spec_password() == b.spec_password() && a.spec_created_at() == b.spec_created_at() && a.spec_salt() == b.spec_salt(),
    ensures
        <UserInsertable as vstd::std_specs::convert::FromSpec<User>>::from_spec(a) == <UserInsertable as vstd::std_specs::convert::FromSpec<User>>::from_spec(b),
{
}

/// Two stored records that differ at most in their identifier convert to
/// the same insertable form.
pub proof fn lemma_access_conversion_ignores_id(a: Access, b: Access)
    requires
        a.spec_url_id() == b.spec_url_id() && a.spec_accessed_at() == b.spec_accessed_at() && a.spec_ip() == b.spec_ip(),
    ensures
        <AccessInsertable as vstd::std_specs::convert::FromSpec<Access>>::from_spec(a) == <AccessInsertable as vstd::std_specs::convert::FromSpec<Access>>::from_spec(b),
{
}

/// Two stored records that differ at most in their identifier convert to
/// the same insertable form.
pub proof fn lemma_url_data_conversion_ignores_id(a: UrlData, b: UrlData)
    requires
        a.spec_url() == b.spec_url() && a.spec_created_at() == b.spec_created_at() && a.spec_num_accesses() == b.spec_num_accesses(),
    ensures
        <UrlDataInsertable as vstd::std_specs::convert::FromSpec<UrlData>>::from_spec(a) == <UrlDataInsertable as vstd::std_specs::convert::FromSpec<UrlData>>::from_spec(b),
{
}

} // verus!
