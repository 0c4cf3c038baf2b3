use datamodel::auth::{check_access, Auth, UserAuthCredential};
use datamodel::config::Settings;
use datamodel::hashing::verification_hash;
use datamodel::records;
use datamodel::models::{User, UserTrait};
use datamodel::time::Timestamp;

const SALT: &str = "0123456789abcdef";

fn alice() -> User {
    let password = verification_hash("correct", SALT).unwrap().hash;
    User::new(
        1,
        "alice".to_string(),
        password,
        Timestamp { seconds: 0, nanos: 0 },
        SALT.to_string(),
    )
}

struct Users {
    users: Vec<User>,
}

impl Auth for Users {
    fn get_user(&self, username: &str) -> Option<User> {
        self.users.iter().find(|u| u.username() == username).cloned()
    }
}

#[test]
fn correct_password_is_granted() {
    assert_eq!(check_access(Some(alice()), "correct"), Ok(true));
}

#[test]
fn wrong_password_is_denied() {
    assert_eq!(check_access(Some(alice()), "wrong"), Ok(false));
}

#[test]
fn unknown_user_is_denied() {
    assert_eq!(check_access(None, "anything"), Ok(false));
}

#[test]
fn has_access_through_a_user_store() {
    let store = Users { users: vec![alice()] };
    assert_eq!(store.has_access(UserAuthCredential::new("alice", "correct")), Ok(true));
    assert_eq!(store.has_access(UserAuthCredential::new("bob", "anything")), Ok(false));
}

#[test]
fn has_access_denies_wrong_password() {
    let store = Users { users: vec![alice()] };
    assert_eq!(store.has_access(UserAuthCredential::new("alice", "wrong")), Ok(false));
}

#[test]
fn credential_getters() {
    let c = UserAuthCredential::new("alice", "secret");
    assert_eq!(c.get_username(), "alice");
    assert_eq!(c.get_password(), "secret");
}

#[test]
fn user_hash_password_uses_stored_salt() {
    let u = alice();
    assert_eq!(&u.hash_password("correct").unwrap().hash, u.password());
}

#[test]
fn verify_password_compares_with_stored_hash() {
    let u = alice();
    assert_eq!(u.verify_password("correct"), Ok(true));
    assert_eq!(u.verify_password("Correct"), Ok(false));
}

fn stored(u: records::User, id: i32) -> User {
    let row = u.into_insertable();
    User::new(id, row.username, row.password, row.created_at, row.salt)
}

#[test]
fn created_user_logs_in_with_own_password() {
    let u = records::User::new(Settings::new("https://sho.rt", 12), "alice", "correct").unwrap();
    assert_eq!(u.get_salt().len(), 16);
    let store = Users { users: vec![stored(u, 1)] };
    assert_eq!(store.has_access(UserAuthCredential::new("alice", "correct")), Ok(true));
}

#[test]
fn created_user_refuses_wrong_password() {
    let u = records::User::new(Settings::new("https://sho.rt", 12), "alice", "correct").unwrap();
    let store = Users { users: vec![stored(u, 1)] };
    assert_eq!(store.has_access(UserAuthCredential::new("alice", "wrong")), Ok(false));
    assert_eq!(store.has_access(UserAuthCredential::new("bob", "anything")), Ok(false));
}

#[test]
fn created_user_hash_is_reproduced() {
    let u = records::User::new(Settings::new("https://sho.rt", 12), "carol", "pw").unwrap();
    let h = u.hash_password("pw").unwrap();
    assert_eq!(h.hash, u.get_password());
    assert!(!h.salt_malformed);
}
