//! The manual-filter controller: a fixed orange tint with an
//! adjustable intensity, forced through value transitions so the
//! backing store's rendering agent actually shows each change.

use crate::error::Error;
use crate::filter_store::{
    FilterCall, FilterStore, spec_write_enabled, INTENSITY_PAUSE_MILLIS, NUDGE_PAUSE_MILLIS,
};
use crate::filters::{
    spec_clamp_percent, spec_intensity_calls, spec_nudge_calls, spec_set_intensity_failure,
    spec_tint_calls, Filters,
};
use crate::status::Status;
use vstd::prelude::*;

verus! {

/// Controller for the manually toggled color-filter feature. It holds
/// no state of its own: everything lives in the backing store.
pub struct ColorFilters<S: FilterStore> {
    pub client: Filters<S>,
}

impl<S: FilterStore> ColorFilters<S> {
    /// Builds a controller around an explicitly constructed client.
    pub fn new(client: Filters<S>) -> (r: ColorFilters<S>)
        ensures
            r.client == client,
    {
        ColorFilters { client }
    }

    /// Turns the filter on: tint parameters first, then the enabled
    /// flag through a forced transition, so the agent renders the
    /// stored intensity whatever it was showing before.
    pub fn on(&mut self) -> (r: Result<(), Error>)
        ensures
            r is Ok ==> final(self).client.store.state().enabled && final(self).client.store.state().seen_enabled && final(self).client.store.state().rendered_intensity == old(self).client.store.state().intensity
                && final(self).client.store.state().intensity == old(self).client.store.state().intensity,
            r is Ok ==> exists|h1: Option<i64>, h2: Option<i64>|
                #![trigger spec_tint_calls(spec_tint_calls(old(self).client.store.calls(), h1), h2)]
                final(self).client.store.calls() == spec_nudge_calls(
                    spec_tint_calls(spec_tint_calls(old(self).client.store.calls(), h1), h2),
                    NUDGE_PAUSE_MILLIS,
                ),
            r matches Err(e) ==> e is Write && final(self).client.store.state().intensity == old(self).client.store.state().intensity && final(self).client.store.state().tint_intensity
                == old(self).client.store.state().tint_intensity && final(self).client.store.state().rendered_intensity == old(self).client.store.state().rendered_intensity && ((final(self).client.store.state().enabled
                == old(self).client.store.state().enabled && final(self).client.store.state().seen_enabled == old(self).client.store.state().seen_enabled) || (
            !final(self).client.store.state().enabled && !final(self).client.store.state().seen_enabled)),
            r matches Err(e) ==> exists|h1: Option<i64>, h2: Option<i64>|
                #![trigger spec_tint_calls(spec_tint_calls(old(self).client.store.calls(), h1), h2)]
                final(self).client.store.calls() == spec_tint_calls(
                    spec_tint_calls(old(self).client.store.calls(), h1),
                    h2,
                ).push(FilterCall::WriteEnabled(false)) || final(self).client.store.calls()
                    == spec_nudge_calls(
                    spec_tint_calls(spec_tint_calls(old(self).client.store.calls(), h1), h2),
                    NUDGE_PAUSE_MILLIS,
                ),
    {
        match self.client.set_fixed_orange_tint() {
            Ok(_) => {},
            Err(e) => {
                return Err(e);
            },
        }
        let ghost mid_calls = self.client.store.calls();
        let ghost mid_state = self.client.store.state();
        let ghost h1 = choose|hr: Option<i64>|
            #![trigger spec_tint_calls(old(self).client.store.calls(), hr)]
            mid_calls == spec_tint_calls(old(self).client.store.calls(), hr);
        let r = self.client.set_enabled(true);
        proof {
            if r is Ok {
                let h2 = choose|hr: Option<i64>|
                    #![trigger spec_tint_calls(mid_calls, hr)]
                    self.client.store.calls() == spec_nudge_calls(
                        spec_tint_calls(mid_calls, hr),
                        NUDGE_PAUSE_MILLIS,
                    );
                assert(self.client.store.calls() == spec_nudge_calls(
                    spec_tint_calls(
                        spec_tint_calls(old(self).client.store.calls(), h1),
                        h2,
                    ),
                    NUDGE_PAUSE_MILLIS,
                ));
            } else {
                let h2 = choose|hr: Option<i64>|
                    #![trigger spec_tint_calls(mid_calls, hr)]
                    (self.client.store.calls() == spec_tint_calls(mid_calls, hr).push(
                        FilterCall::WriteEnabled(false),
                    ) || self.client.store.calls() == spec_nudge_calls(
                        spec_tint_calls(mid_calls, hr),
                        NUDGE_PAUSE_MILLIS,
                    ));
                assert(spec_tint_calls(mid_calls, h2) == spec_tint_calls(
                    spec_tint_calls(old(self).client.store.calls(), h1),
                    h2,
                ));
            }
        }
        r
    }

    /// Turns the filter off with a single flag write.
    pub fn off(&mut self) -> (r: Result<(), Error>)
        ensures
            final(self).client.store.calls() == old(self).client.store.calls().push(
                FilterCall::WriteEnabled(false),
            ),
            r is Ok ==> final(self).client.store.state() == spec_write_enabled(
                old(self).client.store.state(),
                false,
            ),
            r matches Err(e) ==> e is Write,
    {
        self.client.set_enabled(false)
    }

    /// Reads the current status and switches to the opposite one: an
    /// enabled filter is turned off with one write, a disabled one goes
    /// through the full tint-and-transition sequence of `on`. A failed
    /// status read changes nothing.
    pub fn toggle(&mut self) -> (r: Result<(), Error>)
        ensures
            r is Ok ==> final(self).client.store.state().enabled == !old(self).client.store.state().enabled,
            r is Ok && old(self).client.store.state().enabled ==> final(self).client.store.state()
                == spec_write_enabled(old(self).client.store.state(), false) && final(self).client.store.calls() == old(self).client.store.calls().push(
                FilterCall::ReadEnabled(Some(true)),
            ).push(FilterCall::WriteEnabled(false)),
            r is Ok && !old(self).client.store.state().enabled ==> final(self).client.store.state().enabled && final(self).client.store.state().seen_enabled && final(self).client.store.state().rendered_intensity == old(self).client.store.state().intensity && final(self).client.store.state().intensity == old(self).client.store.state().intensity,
            r is Ok && !old(self).client.store.state().enabled ==> exists|h1: Option<i64>, h2: Option<i64>|
                #![trigger spec_tint_calls(spec_tint_calls(old(self).client.store.calls().push(FilterCall::ReadEnabled(Some(false))), h1), h2)]
                final(self).client.store.calls() == spec_nudge_calls(
                    spec_tint_calls(
                        spec_tint_calls(
                            old(self).client.store.calls().push(
                                FilterCall::ReadEnabled(Some(false)),
                            ),
                            h1,
                        ),
                        h2,
                    ),
                    NUDGE_PAUSE_MILLIS,
                ),
            r matches Err(e) ==> e is Read || e is Write,
            r matches Err(e) ==> (e is Read ==> final(self).client.store.state() == old(self).client.store.state() && final(self).client.store.calls() == old(self).client.store.calls().push(
                FilterCall::ReadEnabled(None),
            )),
    {
        let st = match self.status() {
            Ok(s) => s,
            Err(e) => {
                return Err(e);
            },
        };
        match st {
            Status::On => self.off(),
            Status::Off => self.on(),
        }
    }

    /// Validates and stores a new intensity percentage. The write goes
    /// to the primary key (fatally) and the legacy key (best-effort);
    /// when the filter is currently enabled the change is forced
    /// visible through a disable-pause-enable transition.
    pub fn set_intensity(&mut self, percent: i32) -> (r: Result<(), Error>)
        ensures
            (percent < 0 || percent > 100) <==> (r matches Err(e) && e is Validation),
            (percent < 0 || percent > 100) ==> (r matches Err(e) && e matches Error::Validation(m)
                && m@ == "Intensity must be 0-100"@) && final(self).client.store.state() == old(self).client.store.state() && final(self).client.store.calls() == old(self).client.store.calls(),
            r is Ok ==> final(self).client.store.state().intensity == Some(percent) && final(self).client.store.state().enabled == old(self).client.store.state().enabled,
            r is Ok && !old(self).client.store.state().enabled ==> final(self).client.store.state().rendered_intensity == old(self).client.store.state().rendered_intensity,
            r is Ok && !old(self).client.store.state().enabled ==> exists|h: Option<i64>|
                #![trigger spec_tint_calls(old(self).client.store.calls(), h)]
                final(self).client.store.calls() == spec_intensity_calls(
                    spec_tint_calls(old(self).client.store.calls(), h),
                    percent,
                    Some(false),
                ) || final(self).client.store.calls() == spec_intensity_calls(
                    spec_tint_calls(old(self).client.store.calls(), h),
                    percent,
                    None,
                ),
            r is Ok && old(self).client.store.state().enabled ==> exists|h: Option<i64>|
                #![trigger spec_tint_calls(old(self).client.store.calls(), h)]
                (final(self).client.store.calls() == spec_intensity_calls(
                    spec_tint_calls(old(self).client.store.calls(), h),
                    percent,
                    None,
                ) && final(self).client.store.state().rendered_intensity == old(self).client.store.state().rendered_intensity) || (final(self).client.store.calls()
                    == spec_nudge_calls(
                    spec_intensity_calls(
                        spec_tint_calls(old(self).client.store.calls(), h),
                        percent,
                        Some(true),
                    ),
                    INTENSITY_PAUSE_MILLIS,
                ) && final(self).client.store.state().rendered_intensity == Some(percent) && final(self).client.store.state().seen_enabled),
            r matches Err(e) ==> e is Validation || (e is Write && exists|h: Option<i64>|
                #![trigger spec_tint_calls(old(self).client.store.calls(), h)]
                spec_set_intensity_failure(
                    old(self).client.store.state(),
                    spec_tint_calls(old(self).client.store.calls(), h),
                    percent,
                    final(self).client.store.state(),
                    final(self).client.store.calls(),
                )),
    {
        if percent < 0 || percent > 100 {
            return Err(Error::Validation(String::from_str("Intensity must be 0-100")));
        }
        match self.client.set_fixed_orange_tint() {
            Ok(_) => {},
            Err(e) => {
                return Err(e);
            },
        }
        let ghost mid_calls = self.client.store.calls();
        let r = self.client.set_intensity(percent);
        proof {
            assert(spec_clamp_percent(percent) == percent);
            let h = choose|hr: Option<i64>|
                #![trigger spec_tint_calls(old(self).client.store.calls(), hr)]
                mid_calls == spec_tint_calls(old(self).client.store.calls(), hr);
            if r is Ok {
                if !old(self).client.store.state().enabled {
                    assert(self.client.store.calls() == spec_intensity_calls(
                        spec_tint_calls(old(self).client.store.calls(), h),
                        percent,
                        Some(false),
                    ) || self.client.store.calls() == spec_intensity_calls(
                        spec_tint_calls(old(self).client.store.calls(), h),
                        percent,
                        None,
                    ));
                } else {
                    assert((self.client.store.calls() == spec_intensity_calls(
                        spec_tint_calls(old(self).client.store.calls(), h),
                        percent,
                        None,
                    ) && self.client.store.state().rendered_intensity == old(self).client.store.state().rendered_intensity) || (self.client.store.calls()
                        == spec_nudge_calls(
                        spec_intensity_calls(
                            spec_tint_calls(old(self).client.store.calls(), h),
                            percent,
                            Some(true),
                        ),
                        INTENSITY_PAUSE_MILLIS,
                    ) && self.client.store.state().rendered_intensity == Some(percent)
                        && self.client.store.state().seen_enabled));
                }
            } else {
                assert(spec_set_intensity_failure(
                    old(self).client.store.state(),
                    spec_tint_calls(old(self).client.store.calls(), h),
                    percent,
                    self.client.store.state(),
                    self.client.store.calls(),
                ));
            }
        }
        r
    }

    /// Reads the intensity as a 0-100 percentage, falling back to the
    /// legacy key when the primary key cannot be read.
    pub fn get_intensity(&mut self) -> (r: Result<i32, Error>)
        ensures
            final(self).client.store.state() == old(self).client.store.state(),
            r matches Ok(v) ==> (final(self).client.store.calls() == old(self).client.store.calls().push(FilterCall::ReadIntensity(Some(v))) && Some(v) == old(self).client.store.state().intensity) || (final(self).client.store.calls() == old(self).client.store.calls().push(
                FilterCall::ReadIntensity(None),
            ).push(FilterCall::ReadTintIntensity(Some(v))) && Some(v) == old(self).client.store.state().tint_intensity),
            r matches Err(e) ==> e is Read && final(self).client.store.calls() == old(self).client.store.calls().push(FilterCall::ReadIntensity(None)).push(
                FilterCall::ReadTintIntensity(None),
            ),
    {
        self.client.get_intensity_percent()
    }

    /// Reads the filter's current on/off status.
    pub fn status(&mut self) -> (r: Result<Status, Error>)
        ensures
            final(self).client.store.state() == old(self).client.store.state(),
            r matches Ok(st) ==> st == Status::from_bool_spec(
                old(self).client.store.state().enabled,
            ) && final(self).client.store.calls() == old(self).client.store.calls().push(
                FilterCall::ReadEnabled(Some(old(self).client.store.state().enabled)),
            ),
            r is Err ==> final(self).client.store.calls() == old(self).client.store.calls().push(
                FilterCall::ReadEnabled(None),
            ),
            r matches Err(e) ==> e is Read,
    {
        match self.client.get_enabled() {
            Ok(b) => Ok(Status::from_bool(b)),
            Err(e) => Err(e),
        }
    }
}

} // verus!
