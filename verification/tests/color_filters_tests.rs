use nightlight::ColorFilters;
use nightlight::Error;
use nightlight::FakeFilterStore;
use nightlight::FilterCall;
use nightlight::Filters;
use nightlight::HueRepr;
use nightlight::Status;

fn fresh() -> ColorFilters<FakeFilterStore> {
    ColorFilters::new(Filters::new(FakeFilterStore::new()))
}

#[test]
fn set_intensity_while_enabled_forces_transition() {
    let mut cf = fresh();
    cf.client.store.enabled = true;
    cf.client.store.seen_enabled = true;
    cf.set_intensity(40).unwrap();
    assert_eq!(
        cf.client.store.log,
        vec![
            FilterCall::WriteFilterType(4),
            FilterCall::ReadHue(None),
            FilterCall::WriteOrangeHue(HueRepr::Normalized),
            FilterCall::WriteIntensity(40),
            FilterCall::WriteTintIntensity(40),
            FilterCall::ReadEnabled(Some(true)),
            FilterCall::WriteEnabled(false),
            FilterCall::Pause(100),
            FilterCall::WriteEnabled(true),
        ]
    );
    assert!(cf.client.store.enabled);
    assert_eq!(cf.client.store.rendered_intensity, Some(40));
}

#[test]
fn set_intensity_while_disabled_issues_no_transition() {
    let mut cf = fresh();
    cf.set_intensity(40).unwrap();
    assert_eq!(
        cf.client.store.log,
        vec![
            FilterCall::WriteFilterType(4),
            FilterCall::ReadHue(None),
            FilterCall::WriteOrangeHue(HueRepr::Normalized),
            FilterCall::WriteIntensity(40),
            FilterCall::WriteTintIntensity(40),
            FilterCall::ReadEnabled(Some(false)),
        ]
    );
    assert!(!cf.client.store.enabled);
    assert_eq!(cf.client.store.rendered_intensity, None);
}

#[test]
fn set_intensity_validates_range() {
    let mut cf = fresh();
    let e = cf.set_intensity(-1).unwrap_err();
    assert!(matches!(e, Error::Validation(_)));
    assert_eq!(e.message(), "Intensity must be 0-100");
    let e = cf.set_intensity(101).unwrap_err();
    assert!(matches!(e, Error::Validation(_)));
    assert!(cf.client.store.log.is_empty());
}

#[test]
fn hue_written_in_degrees_when_stored_in_degrees() {
    // A stored hue of 45.0, read in thousandths, is taken as degrees:
    // the orange target goes out as 30.0 degrees, not 30/360.
    let mut cf = fresh();
    cf.client.store.hue_milli = Some(45000);
    cf.client.set_fixed_orange_tint().unwrap();
    assert_eq!(
        cf.client.store.log,
        vec![
            FilterCall::WriteFilterType(4),
            FilterCall::ReadHue(Some(45000)),
            FilterCall::WriteOrangeHue(HueRepr::Degrees),
        ]
    );
    assert_eq!(cf.client.store.hue_milli, Some(30000));
}

#[test]
fn hue_written_normalized_when_stored_normalized() {
    let mut cf = fresh();
    cf.client.store.hue_milli = Some(500);
    cf.client.set_fixed_orange_tint().unwrap();
    assert_eq!(cf.client.store.hue_milli, Some(83));
}

#[test]
fn hue_written_normalized_when_nothing_stored() {
    let mut cf = fresh();
    cf.client.set_fixed_orange_tint().unwrap();
    assert_eq!(cf.client.store.hue_milli, Some(83));
    // Setting the tint again finds the normalized value and keeps the
    // representation: the operation is idempotent.
    cf.client.set_fixed_orange_tint().unwrap();
    assert_eq!(cf.client.store.hue_milli, Some(83));
}

#[test]
fn on_forces_transition_and_renders_stored_intensity() {
    let mut cf = fresh();
    cf.client.store.intensity = Some(70);
    cf.on().unwrap();
    assert!(cf.client.store.enabled);
    assert_eq!(cf.client.store.rendered_intensity, Some(70));
    assert_eq!(
        cf.client.store.log,
        vec![
            FilterCall::WriteFilterType(4),
            FilterCall::ReadHue(None),
            FilterCall::WriteOrangeHue(HueRepr::Normalized),
            FilterCall::WriteFilterType(4),
            FilterCall::ReadHue(Some(83)),
            FilterCall::WriteOrangeHue(HueRepr::Normalized),
            FilterCall::WriteEnabled(false),
            FilterCall::Pause(150),
            FilterCall::WriteEnabled(true),
        ]
    );
}

#[test]
fn off_writes_the_flag_once() {
    let mut cf = fresh();
    cf.client.store.enabled = true;
    cf.client.store.seen_enabled = true;
    cf.off().unwrap();
    assert!(!cf.client.store.enabled);
    assert_eq!(cf.client.store.log, vec![FilterCall::WriteEnabled(false)]);
}

#[test]
fn toggle_flips_and_restores() {
    let mut cf = fresh();
    cf.toggle().unwrap();
    assert!(cf.client.store.enabled);
    cf.toggle().unwrap();
    assert!(!cf.client.store.enabled);
}

#[test]
fn status_reflects_the_flag() {
    let mut cf = fresh();
    assert_eq!(cf.status().unwrap(), Status::Off);
    cf.client.store.enabled = true;
    assert_eq!(cf.status().unwrap(), Status::On);
}

#[test]
fn get_intensity_prefers_primary_key() {
    let mut cf = fresh();
    cf.client.store.intensity = Some(40);
    cf.client.store.tint_intensity = Some(25);
    assert_eq!(cf.get_intensity().unwrap(), 40);
}

#[test]
fn get_intensity_falls_back_to_legacy_key() {
    let mut cf = fresh();
    cf.client.store.tint_intensity = Some(25);
    assert_eq!(cf.get_intensity().unwrap(), 25);
    assert_eq!(
        cf.client.store.log,
        vec![FilterCall::ReadIntensity(None), FilterCall::ReadTintIntensity(Some(25))]
    );
}

#[test]
fn get_intensity_fails_when_both_keys_absent() {
    let mut cf = fresh();
    let e = cf.get_intensity().unwrap_err();
    assert!(matches!(e, Error::Read(_)));
}

#[test]
fn set_intensity_clamps_nothing_in_range() {
    let mut cf = fresh();
    cf.set_intensity(0).unwrap();
    assert_eq!(cf.client.store.intensity, Some(0));
    cf.set_intensity(100).unwrap();
    assert_eq!(cf.client.store.intensity, Some(100));
}

#[test]
fn nudge_skipped_when_agent_lags() {
    // The agent has not yet seen the filter as enabled, so the rising
    // edge of the nudge is a real edge: the new intensity renders.
    let mut cf = fresh();
    cf.client.store.enabled = true;
    cf.client.store.seen_enabled = false;
    cf.set_intensity(55).unwrap();
    assert_eq!(cf.client.store.rendered_intensity, Some(55));
}
