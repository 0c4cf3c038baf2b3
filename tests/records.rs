use datamodel::config::Settings;
use datamodel::database::DatabaseError;
use datamodel::hashing::HashError;
use datamodel::records::{join_url, Access, ShortenedUrl, UrlData, User};
use datamodel::time::Timestamp;

#[test]
fn join_url_puts_one_slash() {
    assert_eq!(join_url("https://sho.rt", "abc"), "https://sho.rt/abc");
}

#[test]
fn shortened_url_uses_base_url() {
    let s = ShortenedUrl { id: Some(1), url: "xyz".to_string() };
    assert_eq!(s.get_shortened_url(Settings::new("https://sho.rt", 4)), "https://sho.rt/xyz");
    assert_eq!(s.get_url(), "xyz");
}

#[test]
fn new_user_hashes_password() {
    let u = User::new(Settings::new("https://sho.rt", 4), "alice", "correct").unwrap();
    assert_eq!(u.id, None);
    assert_eq!(u.username, "alice");
    assert_ne!(u.get_password(), "correct");
    assert!(u.get_password().starts_with("$2b$04$"));
    assert_eq!(u.get_salt().len(), 16);
    assert!(u.created_at.nanos < 2_000_000_000);
}

#[test]
fn new_user_with_bad_cost_fails() {
    let r = User::new(Settings::new("https://sho.rt", 40), "alice", "correct");
    assert_eq!(r.unwrap_err(), HashError::CostNotAllowed(40));
}

#[test]
fn with_salt_is_deterministic() {
    let t = Timestamp { seconds: 1, nanos: 2 };
    let a = User::with_salt("bob", "pw", 4, "0123456789abcdef", t).unwrap();
    let b = User::with_salt("bob", "pw", 4, "0123456789abcdef", t).unwrap();
    assert_eq!(a.password, b.password);
    assert_eq!(a.salt, "0123456789abcdef");
    let c = User::with_salt("bob", "pw", 4, "fedcba9876543210", t).unwrap();
    assert_ne!(a.password, c.password);
}

#[test]
fn with_salt_rejects_cost() {
    let t = Timestamp { seconds: 1, nanos: 2 };
    assert_eq!(
        User::with_salt("bob", "pw", 2, "0123456789abcdef", t).unwrap_err(),
        HashError::CostNotAllowed(2)
    );
}

#[test]
fn new_access_and_url_data() {
    let a = Access::new(5, "10.0.0.1");
    assert_eq!((a.id, a.url_id, a.ip.as_str()), (None, 5, "10.0.0.1"));
    let d = UrlData::new("https://example.com");
    assert_eq!((d.id, d.url.as_str(), d.num_accesses), (None, "https://example.com", 0));
}

#[test]
fn timestamp_checks_nanos() {
    assert_eq!(Timestamp::new(5, 7), Some(Timestamp { seconds: 5, nanos: 7 }));
    assert_eq!(Timestamp::new(5, 2_000_000_000), None);
}

#[test]
fn database_error_kinds() {
    let q = DatabaseError::QueryError(diesel::result::Error::NotFound);
    assert!(!q.is_connection());
    let c = DatabaseError::ConnectionError(diesel::ConnectionError::BadConnection("x".to_string()));
    assert!(c.is_connection());
}

#[test]
fn user_into_insertable_keeps_fields() {
    let t = Timestamp { seconds: 3, nanos: 4 };
    let u = User::with_salt("dan", "pw", 4, "0123456789abcdef", t).unwrap();
    let hash = u.password.clone();
    let i = u.into_insertable();
    assert_eq!(i.username, "dan");
    assert_eq!(i.password, hash);
    assert_eq!(i.created_at, t);
    assert_eq!(i.salt, "0123456789abcdef");
}

#[test]
fn update_of_no_row_is_not_applied() {
    assert!(!datamodel::database::row_was_updated(0));
    assert!(datamodel::database::row_was_updated(1));
}

#[test]
fn stored_password_has_bcrypt_shape() {
    let t = Timestamp { seconds: 1, nanos: 2 };
    let u = User::with_salt("eve", "plain", 4, "0123456789abcdef", t).unwrap();
    assert_ne!(u.password, "plain");
    assert_eq!(u.password.len(), 60);
    assert_eq!(&u.password[..7], "$2b$04$");
}

#[test]
fn shortened_url_with_empty_path() {
    let s = ShortenedUrl { id: None, url: String::new() };
    assert_eq!(s.get_shortened_url(Settings::new("b", 4)), "b/");
}
