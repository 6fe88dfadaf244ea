use nightlight::Error;
use nightlight::Time;

#[test]
fn parse_12_hour_afternoon() {
    let t = Time::parse("2:30 PM").unwrap();
    assert_eq!(t.hour, 14);
    assert_eq!(t.minute, 30);
}

#[test]
fn parse_24_hour_midnight() {
    let t = Time::parse("00:00").unwrap();
    assert_eq!(t.hour, 0);
    assert_eq!(t.minute, 0);
}

#[test]
fn parse_rejects_13_pm() {
    let e = Time::parse("13 PM").unwrap_err();
    assert!(matches!(e, Error::Parse(_)));
    assert_eq!(e.message(), "Invalid time: 13 PM");
}

#[test]
fn parse_12_am_is_hour_zero() {
    let t = Time::parse("12:00 AM").unwrap();
    assert_eq!(t.hour, 0);
    assert_eq!(t.minute, 0);
}

#[test]
fn parse_12_pm_is_noon() {
    let t = Time::parse("12:15 pm").unwrap();
    assert_eq!(t.hour, 12);
    assert_eq!(t.minute, 15);
}

#[test]
fn parse_bare_hour_forms() {
    let t = Time::parse("7").unwrap();
    assert_eq!((t.hour, t.minute), (7, 0));
    let t = Time::parse("7pm").unwrap();
    assert_eq!((t.hour, t.minute), (19, 0));
    let t = Time::parse("7 AM").unwrap();
    assert_eq!((t.hour, t.minute), (7, 0));
}

#[test]
fn parse_rejects_malformed_text() {
    assert!(Time::parse("").is_err());
    assert!(Time::parse("abc").is_err());
    assert!(Time::parse("1:2:3").is_err());
    assert!(Time::parse("2:60").is_err());
    assert!(Time::parse("24:00").is_err());
    assert!(Time::parse("0 PM").is_err());
    assert!(Time::parse("12:").is_err());
    assert!(Time::parse(":30").is_err());
    assert!(Time::parse("1 000:00").is_err());
}

#[test]
fn parse_accepts_boundaries() {
    let t = Time::parse("23:59").unwrap();
    assert_eq!((t.hour, t.minute), (23, 59));
    let t = Time::parse("0:00").unwrap();
    assert_eq!((t.hour, t.minute), (0, 0));
    let t = Time::parse("11:59 PM").unwrap();
    assert_eq!((t.hour, t.minute), (23, 59));
}

#[test]
fn from_pair_checks_ranges() {
    let t = Time::from_pair(23, 59).unwrap();
    assert_eq!((t.hour, t.minute), (23, 59));
    let e = Time::from_pair(24, 0).unwrap_err();
    assert!(matches!(e, Error::Parse(_)));
    assert!(Time::from_pair(0, 60).is_err());
}

#[test]
fn to_pair_round_trips() {
    let t = Time::from_pair(9, 5).unwrap();
    assert_eq!(t.to_pair(), (9, 5));
    let back = Time::from_pair(t.to_pair().0, t.to_pair().1).unwrap();
    assert_eq!(back, t);
}

#[test]
fn display_uses_12_hour_form() {
    assert_eq!(Time::from_pair(0, 0).unwrap().display_string(), "12:00 AM");
    assert_eq!(Time::from_pair(13, 5).unwrap().display_string(), "1:05 PM");
    assert_eq!(Time::from_pair(12, 30).unwrap().display_string(), "12:30 PM");
    assert_eq!(Time::from_pair(11, 59).unwrap().display_string(), "11:59 AM");
    assert_eq!(Time::from_pair(22, 10).unwrap().display_string(), "10:10 PM");
}

#[test]
fn parse_error_names_the_text() {
    let e = Time::parse("nope").unwrap_err();
    assert_eq!(e.message(), "Invalid time: nope");
}
