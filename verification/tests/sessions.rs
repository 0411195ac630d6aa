use yrmos::clock::Timestamp;
use yrmos::errors::{AppError, DatabaseError};
use yrmos::schema::session::Revocation;
use yrmos::schema::{Person, Session};

#[test]
fn new_session_belongs_to_creator_and_is_version_4() {
    let s = Session::create("ana@example.com");
    assert_eq!(s.creator, "ana@example.com");
    assert_eq!((s.id >> 76) & 0xf, 4);
    assert_eq!((s.id >> 62) & 0x3, 2);
    assert!(s.creation.secs > 1_600_000_000);
}

#[test]
fn cookie_value_is_simple_uuid_and_reads_back() {
    let s = Session {
        id: 0xa1a2a3a4b1b2c1c2d1d2d3d4d5d6d7d8,
        creator: "ana@example.com".to_string(),
        creation: Timestamp { secs: 0, nanos: 0 },
    };
    let value = s.cookie_value();
    assert_eq!(value, "a1a2a3a4b1b2c1c2d1d2d3d4d5d6d7d8");
    assert_eq!(Session::id_from_cookie(Some(&value)).unwrap(), s.id);
}

#[test]
fn cookie_with_leading_zeros_reads_back() {
    let s = Session { id: 42, creator: String::new(), creation: Timestamp { secs: 0, nanos: 0 } };
    let value = s.cookie_value();
    assert_eq!(value, "0000000000000000000000000000002a");
    assert_eq!(Session::id_from_cookie(Some(&value)).unwrap(), 42);
}

#[test]
fn hyphenated_cookie_is_accepted() {
    let id = Session::id_from_cookie(Some("a1a2a3a4-b1b2-c1c2-d1d2-d3d4d5d6d7d8")).unwrap();
    assert_eq!(id, 0xa1a2a3a4b1b2c1c2d1d2d3d4d5d6d7d8);
}

#[test]
fn missing_or_malformed_cookie_is_not_authenticated() {
    assert!(matches!(Session::id_from_cookie(None), Err(AppError::NotAuthenticated)));
    assert!(matches!(Session::id_from_cookie(Some("not-a-uuid")), Err(AppError::NotAuthenticated)));
}

#[test]
fn authenticate_maps_failures_to_invalid_session() {
    let found = Session::create("ana@example.com");
    let id = found.id;
    assert_eq!(Session::authenticate(Ok(found)).unwrap().id, id);
    assert!(matches!(
        Session::authenticate(Err(DatabaseError::RowNotFound)),
        Err(AppError::InvalidSession)
    ));
    assert!(matches!(
        Session::authenticate(Err(DatabaseError::Other("down".to_string()))),
        Err(AppError::InvalidSession)
    ));
}

fn covers(r: &Revocation, id: u128, creator: &str) -> bool {
    r.creator == creator && (r.session.is_none() || r.session == Some(id))
}

#[test]
fn logout_scope() {
    let s = Session::create("ana@example.com");
    let own = s.logout(false);
    assert_eq!(own.creator, "ana@example.com");
    assert_eq!(own.session, Some(s.id));
    assert!(covers(&own, s.id, "ana@example.com"));
    assert!(!covers(&own, s.id + 1, "ana@example.com"));
    let all = s.logout(true);
    assert_eq!(all.session, None);
    assert!(covers(&all, s.id + 1, "ana@example.com"));
    assert!(!covers(&all, s.id, "bia@example.com"));
    assert_eq!(s.revoke_self().session, Some(s.id));
    assert_eq!(s.revoke_all().session, None);
    assert_eq!(s.revoke(Some(7)).session, Some(7));
}

#[test]
fn registered_password_logs_in() {
    let person = Person::register("ana@example.com", "s3cret", "Ana").unwrap();
    assert_eq!(person.email, "ana@example.com");
    assert_eq!(person.real_name, "Ana");
    assert!(person.pix_key.is_none());
    assert!(person.password_hash_text().starts_with("$argon2"));
    let session = Person::login(Some(&person), "ana@example.com", "s3cret").unwrap();
    assert_eq!(session.creator, "ana@example.com");
}

#[test]
fn wrong_password_or_unknown_person_is_refused() {
    let person = Person::register("ana@example.com", "s3cret", "Ana").unwrap();
    assert!(matches!(
        Person::login(Some(&person), "ana@example.com", "wrong"),
        Err(AppError::InvalidCredentials)
    ));
    assert!(matches!(
        Person::login(None, "ana@example.com", "s3cret"),
        Err(AppError::InvalidCredentials)
    ));
}

#[test]
fn undecodable_hash_is_a_hashing_error() {
    let person = Person::from_record(
        "ana@example.com".to_string(),
        "Ana".to_string(),
        None,
        "not a hash".to_string(),
    );
    assert!(matches!(
        Person::login(Some(&person), "ana@example.com", "s3cret"),
        Err(AppError::Hashing)
    ));
}

#[test]
fn same_password_gets_different_salts() {
    let a = Person::register("ana@example.com", "s3cret", "Ana").unwrap();
    let b = Person::register("ana@example.com", "s3cret", "Ana").unwrap();
    assert_ne!(a.password_hash_text(), b.password_hash_text());
}
