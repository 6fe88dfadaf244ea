use nightlight::Error;
use nightlight::FakeShiftClient;
use nightlight::NightLight;
use nightlight::Schedule;
use nightlight::ShiftCall;
use nightlight::ShiftClient;
use nightlight::Status;
use nightlight::Time;

fn custom_nine_to_five() -> Schedule {
    Schedule::Custom(Time::from_pair(9, 0).unwrap(), Time::from_pair(17, 0).unwrap())
}

#[test]
fn on_off_and_status() {
    let mut nl = NightLight::new(FakeShiftClient::new());
    assert_eq!(nl.status().unwrap(), Status::Off);
    nl.on().unwrap();
    assert_eq!(nl.status().unwrap(), Status::On);
    nl.off().unwrap();
    assert_eq!(nl.status().unwrap(), Status::Off);
}

#[test]
fn toggle_sets_the_given_status() {
    let mut nl = NightLight::new(FakeShiftClient::new());
    nl.toggle(Status::On).unwrap();
    assert!(nl.client.enabled);
    nl.toggle(Status::Off).unwrap();
    assert!(!nl.client.enabled);
}

#[test]
fn fake_mode_write_disturbs_enabled() {
    // The fake emulates the store quirk the preservation protocol
    // exists for: a bare mode write recomputes the enabled flag.
    let mut c = FakeShiftClient::new();
    c.set_enabled(true).unwrap();
    assert!(c.enabled);
    c.set_mode(0).unwrap();
    assert!(!c.enabled);
}

#[test]
fn set_schedule_preserves_status_even_when_mode_unchanged() {
    let mut nl = NightLight::new(FakeShiftClient::new());
    nl.on().unwrap();
    nl.client.mode = 0;
    nl.set_schedule(Schedule::Off).unwrap();
    assert_eq!(nl.status().unwrap(), Status::On);
}

#[test]
fn set_schedule_preserves_on_status() {
    let mut nl = NightLight::new(FakeShiftClient::new());
    nl.on().unwrap();
    nl.client.log.clear();
    nl.set_schedule(custom_nine_to_five()).unwrap();
    assert_eq!(nl.status().unwrap(), Status::On);
    assert_eq!(
        nl.client.log,
        vec![
            ShiftCall::GetEnabled(Some(true)),
            ShiftCall::SetMode(2),
            ShiftCall::SetScheduleTimes(9, 0, 17, 0),
            ShiftCall::SetEnabled(true),
            ShiftCall::GetEnabled(Some(true)),
        ]
    );
}

#[test]
fn set_schedule_preserves_off_status() {
    let mut nl = NightLight::new(FakeShiftClient::new());
    nl.client.log.clear();
    nl.set_schedule(custom_nine_to_five()).unwrap();
    assert_eq!(nl.status().unwrap(), Status::Off);
    assert_eq!(
        nl.client.log,
        vec![
            ShiftCall::GetEnabled(Some(false)),
            ShiftCall::SetMode(2),
            ShiftCall::SetScheduleTimes(9, 0, 17, 0),
            ShiftCall::SetEnabled(false),
            ShiftCall::GetEnabled(Some(false)),
        ]
    );
}

#[test]
fn set_schedule_off_reapplies_status_too() {
    let mut nl = NightLight::new(FakeShiftClient::new());
    nl.client.log.clear();
    nl.set_schedule(Schedule::Off).unwrap();
    assert_eq!(
        nl.client.log,
        vec![
            ShiftCall::GetEnabled(Some(false)),
            ShiftCall::SetMode(0),
            ShiftCall::SetEnabled(false),
        ]
    );
}

#[test]
fn set_schedule_stores_custom_times() {
    let mut nl = NightLight::new(FakeShiftClient::new());
    nl.set_schedule(custom_nine_to_five()).unwrap();
    assert_eq!(nl.client.mode, 2);
    assert_eq!(nl.client.from_time, (9, 0));
    assert_eq!(nl.client.to_time, (17, 0));
}

#[test]
fn get_schedule_decodes_stored_triple() {
    let mut nl = NightLight::new(FakeShiftClient::new());
    nl.client.mode = 2;
    nl.client.from_time = (22, 0);
    nl.client.to_time = (7, 0);
    let s = nl.get_schedule().unwrap();
    let (code, times) = s.to_mode_and_times();
    assert_eq!(code, 2);
    let (a, b) = times.unwrap();
    assert_eq!(a.to_pair(), (22, 0));
    assert_eq!(b.to_pair(), (7, 0));

    nl.client.mode = 1;
    assert_eq!(nl.get_schedule().unwrap(), Schedule::SunsetToSunrise);
}

#[test]
fn get_schedule_surfaces_unknown_mode() {
    let mut nl = NightLight::new(FakeShiftClient::new());
    nl.client.mode = 7;
    let e = nl.get_schedule().unwrap_err();
    assert!(matches!(e, Error::UnrecognizedMode(_)));
}

#[test]
fn get_schedule_rejects_bad_stored_time() {
    let mut nl = NightLight::new(FakeShiftClient::new());
    nl.client.from_time = (24, 0);
    let e = nl.get_schedule().unwrap_err();
    assert!(matches!(e, Error::Parse(_)));
}

#[test]
fn schedule_decoder_matches_conversions() {
    let s = NightLight::<FakeShiftClient>::schedule(2, (9, 0), (17, 0)).unwrap();
    assert_eq!(s, custom_nine_to_five());
    let e = NightLight::<FakeShiftClient>::schedule(5, (9, 0), (17, 0)).unwrap_err();
    assert!(matches!(e, Error::UnrecognizedMode(_)));
}

#[test]
fn set_temp_validates_range() {
    let mut nl = NightLight::new(FakeShiftClient::new());
    let e = nl.set_temp(-1).unwrap_err();
    assert!(matches!(e, Error::Validation(_)));
    assert_eq!(e.message(), "Color temperature must be a number from 0 to 100.");
    let e = nl.set_temp(101).unwrap_err();
    assert!(matches!(e, Error::Validation(_)));
    assert!(nl.client.log.is_empty());
}

#[test]
fn set_temp_writes_and_reads_back() {
    let mut nl = NightLight::new(FakeShiftClient::new());
    nl.set_temp(50).unwrap();
    assert_eq!(nl.client.strength, 50);
    assert_eq!(nl.client.log, vec![ShiftCall::SetStrength(50)]);
    assert_eq!(nl.get_temp().unwrap(), 50);
}

#[test]
fn set_temp_accepts_boundaries() {
    let mut nl = NightLight::new(FakeShiftClient::new());
    nl.set_temp(0).unwrap();
    assert_eq!(nl.client.strength, 0);
    nl.set_temp(100).unwrap();
    assert_eq!(nl.client.strength, 100);
}
