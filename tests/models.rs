use datamodel::models::{
    Access, AccessInsertable, AccessTrait, UrlData, UrlDataInsertable, UrlDataTrait, User,
    UserInsertable, UserTrait,
};
use datamodel::time::Timestamp;

fn ts(seconds: i64) -> Timestamp {
    Timestamp { seconds, nanos: 0 }
}

#[test]
fn user_conversion_keeps_all_but_id() {
    let u = User::new(7, "alice".to_string(), "h".to_string(), ts(5), "s".to_string());
    let i = UserInsertable::from(u);
    assert_eq!(i.username(), "alice");
    assert_eq!(i.password(), "h");
    assert_eq!(*i.created_at(), ts(5));
    assert_eq!(i.salt(), "s");
}

#[test]
fn access_conversion_keeps_all_but_id() {
    let a = Access::new(3, 9, ts(10), "127.0.0.1".to_string());
    let i = AccessInsertable::from(a);
    assert_eq!(*i.url_id(), 9);
    assert_eq!(*i.accessed_at(), ts(10));
    assert_eq!(i.ip(), "127.0.0.1");
}

#[test]
fn url_data_conversion_keeps_all_but_id() {
    let d = UrlData::new(4, "https://example.com".to_string(), ts(1), 12);
    let i = UrlDataInsertable::from(d);
    assert_eq!(i.url(), "https://example.com");
    assert_eq!(*i.created_at(), ts(1));
    assert_eq!(*i.num_accesses(), 12);
}

#[test]
fn accessors_follow_constructor_order() {
    let u = User::new(1, "a".to_string(), "b".to_string(), ts(2), "c".to_string());
    assert_eq!(u.id(), 1);
    assert_eq!((u.username().as_str(), u.password().as_str(), u.salt().as_str()), ("a", "b", "c"));
    let i = UserInsertable::new("a".to_string(), "b".to_string(), ts(2), "c".to_string());
    assert_eq!((i.username().as_str(), i.password().as_str(), i.salt().as_str()), ("a", "b", "c"));
}

#[test]
fn update_overwrites_every_field() {
    let old = UrlData::new(4, "https://old.example".to_string(), ts(1), 1);
    let new = UrlData::new(4, "https://new.example".to_string(), ts(2), 2);
    let (id, row) = new.into_update();
    assert_eq!(id, 4);
    assert_ne!(&row.url, old.url());
    assert_ne!(&row.created_at, old.created_at());
    assert_ne!(&row.num_accesses, old.num_accesses());
    assert_eq!(row.url, "https://new.example");
    assert_eq!(row.created_at, ts(2));
    assert_eq!(row.num_accesses, 2);
}

#[test]
fn user_update_carries_id_and_row() {
    let u = User::new(9, "x".to_string(), "y".to_string(), ts(3), "z".to_string());
    let (id, row) = u.into_update();
    assert_eq!(id, 9);
    assert_eq!(row.username, "x");
    assert_eq!(row.salt, "z");
}

#[test]
fn access_update_carries_id_and_row() {
    let a = Access::new(2, 5, ts(6), "::1".to_string());
    let (id, row) = a.into_update();
    assert_eq!(id, 2);
    assert_eq!(row.url_id, 5);
    assert_eq!(row.ip, "::1");
}

#[test]
fn access_accessors_return_constructor_arguments() {
    let a = Access::new(1, 2, ts(3), "ip".to_string());
    assert_eq!((a.id(), *a.url_id(), *a.accessed_at(), a.ip().as_str()), (1, 2, ts(3), "ip"));
    let i = AccessInsertable::new(2, ts(3), "ip".to_string());
    assert_eq!((*i.url_id(), *i.accessed_at(), i.ip().as_str()), (2, ts(3), "ip"));
}

#[test]
fn url_data_accessors_return_constructor_arguments() {
    let d = UrlData::new(1, "u".to_string(), ts(3), 4);
    assert_eq!((d.id(), d.url().as_str(), *d.created_at(), *d.num_accesses()), (1, "u", ts(3), 4));
    let i = UrlDataInsertable::new("u".to_string(), ts(3), 4);
    assert_eq!((i.url().as_str(), *i.created_at(), *i.num_accesses()), ("u", ts(3), 4));
}

#[test]
fn user_created_at_accessor_returns_argument() {
    let u = User::new(1, "a".to_string(), "b".to_string(), ts(8), "c".to_string());
    assert_eq!(*u.created_at(), ts(8));
}
