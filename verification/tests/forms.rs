use yrmos::forms::{parse_departure_date, parse_departure_time};

#[test]
fn dates_from_the_form() {
    let d = parse_departure_date("2024-03-05").unwrap();
    assert_eq!((d.year, d.month, d.day), (2024, 3, 5));
    let d = parse_departure_date("2024-02-29").unwrap();
    assert_eq!((d.year, d.month, d.day), (2024, 2, 29));
    assert!(parse_departure_date("2023-02-29").is_none());
    assert!(parse_departure_date("2024-13-01").is_none());
    assert!(parse_departure_date("05/03/2024").is_none());
    assert!(parse_departure_date("").is_none());
}

#[test]
fn times_from_the_form() {
    let t = parse_departure_time("07:45").unwrap();
    assert_eq!((t.hour, t.minute), (7, 45));
    assert!(parse_departure_time("24:00").is_none());
    assert!(parse_departure_time("12:60").is_none());
    assert!(parse_departure_time("noon").is_none());
}
