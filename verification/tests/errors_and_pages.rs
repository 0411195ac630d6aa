use yrmos::clock::Timestamp;
use yrmos::errors::{AppError, DatabaseError, ErrorResponse};
use yrmos::ids::first_field;
use yrmos::money::Cost;
use yrmos::pages::{navbar_links, profile_link, reputation, ride_details, NavbarLinks, SeatAction};
use yrmos::schema::{Person, Ride, Session};

#[test]
fn status_codes() {
    assert_eq!(AppError::NotAuthenticated.status_code(), 401);
    assert_eq!(AppError::InvalidSession.status_code(), 401);
    assert_eq!(AppError::InvalidCredentials.status_code(), 401);
    assert_eq!(AppError::NotFound.status_code(), 404);
    assert_eq!(AppError::NotAllowed.status_code(), 403);
    assert_eq!(AppError::Database(DatabaseError::RowNotFound).status_code(), 404);
    assert_eq!(AppError::Database(DatabaseError::Other("x".into())).status_code(), 500);
    assert_eq!(AppError::Hashing.status_code(), 500);
    assert_eq!(AppError::DatabaseMigration("x".into()).status_code(), 500);
    assert_eq!(AppError::Logging("x".into()).status_code(), 500);
    assert_eq!(AppError::Http("x".into()).status_code(), 500);
}

#[test]
fn messages_and_redirects() {
    assert_eq!(AppError::NotAllowed.message(), "Você não pode fazer essa ação");
    assert_eq!(
        AppError::InvalidCredentials.redirect("/login"),
        "/login?error=Credenciais inválidas, tente novamente"
    );
}

#[test]
fn login_errors_redirect_and_others_show_a_page() {
    match AppError::InvalidSession.response() {
        ErrorResponse::Redirect(to) => {
            assert_eq!(to, "/login?error=Sua sessão expirou, faça login novamente")
        }
        other => panic!("unexpected {:?}", other),
    }
    match AppError::NotAuthenticated.response() {
        ErrorResponse::Redirect(to) => assert_eq!(to, "/login?error=Você não está autenticado, faça login"),
        other => panic!("unexpected {:?}", other),
    }
    assert!(matches!(AppError::NotFound.response(), ErrorResponse::Page(404)));
    assert!(matches!(AppError::InvalidCredentials.response(), ErrorResponse::Page(401)));
}

fn person(email: &str) -> Person {
    Person::from_record(email.to_string(), "Nome".to_string(), None, String::new())
}

fn ride(seats: i32, departure_secs: i64) -> Ride {
    Ride {
        id: 0x0a1b2c3d_0000_4000_8000_000000000000,
        driver: "driver@example.com".to_string(),
        seats,
        departure: Timestamp { secs: departure_secs, nanos: 0 },
        start_location: "ICMC".to_string(),
        end_location: "Rodoviária".to_string(),
        cost: None,
        public: true,
    }
}

fn session(email: &str) -> Session {
    Session { id: 1, creator: email.to_string(), creation: Timestamp { secs: 0, nanos: 0 } }
}

#[test]
fn ride_link_and_short_id() {
    let r = ride(4, 100);
    assert_eq!(r.link(), "/rides/0a1b2c3d-0000-4000-8000-000000000000");
    assert_eq!(first_field(r.id), 0x0a1b2c3d);
    let d = ride_details(&r, None, &vec![], 0, Timestamp { secs: 0, nanos: 0 });
    assert_eq!(d.short_id, "a1b2c3d");
}

#[test]
fn ride_page_for_a_new_passenger() {
    let r = ride(2, 100);
    let viewer = session("ana@example.com");
    let riders = vec![person("bia@example.com")];
    let d = ride_details(&r, Some(&viewer), &riders, 3, Timestamp { secs: 50, nanos: 0 });
    assert!(!d.am_driver);
    assert!(d.positive_reputation);
    assert!(!d.is_past);
    assert!(!d.is_full);
    assert_eq!(d.passengers_label, "Passageiros (1/2)");
    match d.action {
        SeatAction::Reserve { enabled, notice } => {
            assert!(enabled);
            assert_eq!(notice, "");
        }
        other => panic!("unexpected {:?}", other),
    }
}

#[test]
fn ride_page_full_past_reserved_and_driver() {
    let r = ride(1, 100);
    let riders = vec![person("bia@example.com")];
    let viewer = session("ana@example.com");
    let d = ride_details(&r, Some(&viewer), &riders, -1, Timestamp { secs: 50, nanos: 0 });
    assert!(d.is_full);
    assert!(!d.positive_reputation);
    assert!(matches!(d.action, SeatAction::Reserve { enabled: false, ref notice } if notice == "Não há vagas"));

    let d = ride_details(&r, Some(&viewer), &riders, 0, Timestamp { secs: 100, nanos: 1 });
    assert!(d.is_past);
    assert!(matches!(d.action, SeatAction::Reserve { enabled: false, ref notice } if notice == "Essa corrida já foi finalizada"));

    let holder = session("bia@example.com");
    let d = ride_details(&r, Some(&holder), &riders, 0, Timestamp { secs: 50, nanos: 0 });
    assert!(matches!(d.action, SeatAction::Unreserve));

    let driver = session("driver@example.com");
    let d = ride_details(&r, Some(&driver), &riders, 0, Timestamp { secs: 50, nanos: 0 });
    assert!(d.am_driver);
    assert!(matches!(d.action, SeatAction::Nothing));
}

#[test]
fn negative_seats_mean_no_seat() {
    let r = ride(-3, 100);
    let d = ride_details(&r, None, &vec![], 0, Timestamp { secs: 0, nanos: 0 });
    assert!(d.is_full);
    assert_eq!(d.passengers_label, "Passageiros (0/-3)");
}

#[test]
fn drivers_may_not_reserve_their_own_ride() {
    let r = ride(3, 100);
    assert!(matches!(r.check_passenger(&"driver@example.com".to_string()), Err(AppError::NotAllowed)));
    assert!(r.check_passenger(&"ana@example.com".to_string()).is_ok());
}

#[test]
fn created_ride_keeps_what_was_asked() {
    let driver = person("driver@example.com");
    let cost = Cost::new(1500, 2);
    let r = Ride::create(&driver, 3, Timestamp { secs: 10, nanos: 5 }, "A".into(), "B".into(), cost, false);
    assert_eq!(r.driver, "driver@example.com");
    assert_eq!(r.seats, 3);
    assert_eq!((r.id >> 76) & 0xf, 4);
    assert_eq!(r.cost_text().unwrap(), "15.00");
    assert!(!r.public);
    let other = Ride::create(&driver, 3, Timestamp { secs: 10, nanos: 5 }, "A".into(), "B".into(), None, false);
    assert_ne!(r.id, other.id);
    assert_eq!(other.cost_text(), None);
}

#[test]
fn navbar_and_profiles() {
    assert_eq!(profile_link("ana@example.com"), "/profiles/ana@example.com");
    let s = session("ana@example.com");
    assert!(matches!(navbar_links(Some(&s), false), NavbarLinks::LogoOnly));
    assert!(matches!(navbar_links(None, true), NavbarLinks::LoggedOut));
    match navbar_links(Some(&s), true) {
        NavbarLinks::LoggedIn { profile } => assert_eq!(profile, "/profiles/ana@example.com"),
        other => panic!("unexpected {:?}", other),
    }
}

#[test]
fn reputation_counts_thumbs() {
    assert_eq!(reputation(&vec![]), 0);
    assert_eq!(reputation(&vec![Some(true), Some(true), None, Some(false)]), 1);
    assert_eq!(reputation(&vec![Some(false), Some(false)]), -2);
}

#[test]
fn instants_compare_by_seconds_then_nanoseconds() {
    let a = Timestamp { secs: 5, nanos: 10 };
    assert!(a.is_after(&Timestamp { secs: 4, nanos: 999 }));
    assert!(a.is_after(&Timestamp { secs: 5, nanos: 9 }));
    assert!(!a.is_after(&a));
    assert!(!a.is_after(&Timestamp { secs: 6, nanos: 0 }));
}
