use nightlight::Error;
use nightlight::Schedule;
use nightlight::Status;
use nightlight::Time;

#[test]
fn schedule_round_trip_all_modes() {
    for mode in 0..3 {
        let s = Schedule::from_mode_and_times(mode, (9, 0), (17, 30)).unwrap();
        let (code, times) = s.to_mode_and_times();
        assert_eq!(code, mode);
        if mode == 2 {
            let (a, b) = times.unwrap();
            assert_eq!(a.to_pair(), (9, 0));
            assert_eq!(b.to_pair(), (17, 30));
        } else {
            assert!(times.is_none());
        }
    }
}

#[test]
fn schedule_mode_three_is_unrecognized() {
    let e = Schedule::from_mode_and_times(3, (9, 0), (17, 0)).unwrap_err();
    assert!(matches!(e, Error::UnrecognizedMode(_)));
    assert_eq!(e.message(), "Unrecognized schedule type");
}

#[test]
fn schedule_rejects_bad_stored_times() {
    let e = Schedule::from_mode_and_times(0, (24, 0), (17, 0)).unwrap_err();
    assert!(matches!(e, Error::Parse(_)));
    assert_eq!(e.message(), "Stored time is out of range");
    let e = Schedule::from_mode_and_times(2, (9, 0), (9, 60)).unwrap_err();
    assert!(matches!(e, Error::Parse(_)));
}

#[test]
fn schedule_display_forms() {
    assert_eq!(Schedule::Off.display_string(), "Off");
    assert_eq!(Schedule::SunsetToSunrise.display_string(), "Sunset to Sunrise");
    let a = Time::from_pair(9, 0).unwrap();
    let b = Time::from_pair(17, 0).unwrap();
    assert_eq!(Schedule::Custom(a, b).display_string(), "Custom: 9:00 AM to 5:00 PM");
}

#[test]
fn status_from_bool_true_is_on() {
    assert_eq!(Status::from_bool(true), Status::On);
    assert_eq!(Status::from_bool(false), Status::Off);
}

#[test]
fn status_as_bool_of_on_is_true() {
    assert!(Status::On.as_bool());
    assert!(!Status::Off.as_bool());
}

#[test]
fn status_toggling_twice_returns_original() {
    assert_eq!(Status::On.toggled().toggled(), Status::On);
    assert_eq!(Status::Off.toggled().toggled(), Status::Off);
    assert_eq!(Status::On.toggled(), Status::Off);
}

#[test]
fn status_display_forms() {
    assert_eq!(Status::On.display_string(), "On");
    assert_eq!(Status::Off.display_string(), "Off");
}
