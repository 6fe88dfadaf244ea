//! The manual-filter client layer: the nudge (forced transition)
//! protocol, the hue-representation detection, and the primary/legacy
//! intensity key handling, all over a raw key/value store.

use crate::error::Error;
use crate::filter_store::{
    FilterCall, FilterState, FilterStore, HueRepr, spec_orange_milli, spec_write_enabled,
    COLOR_TINT_FILTER_TYPE, DEGREES_THRESHOLD_MILLI, INTENSITY_PAUSE_MILLIS, NUDGE_PAUSE_MILLIS,
};
use vstd::prelude::*;

verus! {

/// The representation the orange target hue must be written in, given
/// what a read of the stored hue returned: a stored value above the
/// threshold is degrees, anything else — a small value, a missing key
/// or a failed read — is treated as a normalized fraction.
pub open spec fn spec_orange_hue_for(current: Option<i64>) -> HueRepr {
    if current matches Some(h) && h > DEGREES_THRESHOLD_MILLI {
        HueRepr::Degrees
    } else {
        HueRepr::Normalized
    }
}

/// Picks the hue representation to write from what the store read
/// back, so a later read-back compares consistently with what was set.
pub fn orange_hue_for(current: Option<i64>) -> (r: HueRepr)
    ensures
        r == spec_orange_hue_for(current),
{
    match current {
        Some(h) => {
            if h > DEGREES_THRESHOLD_MILLI {
                HueRepr::Degrees
            } else {
                HueRepr::Normalized
            }
        },
        None => HueRepr::Normalized,
    }
}

/// `percent` clamped into 0-100.
pub open spec fn spec_clamp_percent(percent: i32) -> i32 {
    if percent < 0 {
        0
    } else if percent > 100 {
        100
    } else {
        percent
    }
}

/// The calls that set the tint parameters: force the filter type, read
/// the stored hue, and write the orange target in exactly the
/// representation `orange_hue_for` picks from what the read returned.
pub open spec fn spec_tint_calls(base: Seq<FilterCall>, hue_read: Option<i64>) -> Seq<FilterCall> {
    base.push(FilterCall::WriteFilterType(COLOR_TINT_FILTER_TYPE)).push(
        FilterCall::ReadHue(hue_read),
    ).push(FilterCall::WriteOrangeHue(spec_orange_hue_for(hue_read)))
}

/// The calls of a forced transition: disable, wait, re-enable.
pub open spec fn spec_nudge_calls(base: Seq<FilterCall>, millis: u64) -> Seq<FilterCall> {
    base.push(FilterCall::WriteEnabled(false)).push(FilterCall::Pause(millis)).push(
        FilterCall::WriteEnabled(true),
    )
}

/// The calls that store a new intensity: both keys, then a look at the
/// enabled flag — recording what it returned — to decide whether a
/// forced transition is needed.
pub open spec fn spec_intensity_calls(
    base: Seq<FilterCall>,
    percent: i32,
    enabled_read: Option<bool>,
) -> Seq<FilterCall> {
    base.push(FilterCall::WriteIntensity(percent)).push(
        FilterCall::WriteTintIntensity(percent),
    ).push(FilterCall::ReadEnabled(enabled_read))
}

/// Where a failed `set_intensity` can leave the store: one disjunct per
/// failure point. A failed primary write changes nothing; a forced
/// transition is attempted only after the enabled flag read back
/// `true`, and its failed first write changes no flag, while a failed
/// re-enable leaves the filter off with the new intensity stored — a
/// caller must expect both. The hue, filter type and rendered intensity
/// are never touched here.
pub open spec fn spec_set_intensity_failure(
    pre: FilterState,
    base: Seq<FilterCall>,
    percent: i32,
    post: FilterState,
    calls: Seq<FilterCall>,
) -> bool {
    let p = spec_clamp_percent(percent);
    &&& post.rendered_intensity == pre.rendered_intensity
    &&& ({
        ||| (calls == base.push(FilterCall::WriteIntensity(p)) && post.enabled == pre.enabled
            && post.seen_enabled == pre.seen_enabled && post.intensity == pre.intensity
            && post.tint_intensity == pre.tint_intensity)
        ||| (calls == spec_intensity_calls(base, p, Some(true)).push(
            FilterCall::WriteEnabled(false),
        ) && pre.enabled && post.enabled == pre.enabled && post.seen_enabled == pre.seen_enabled
            && post.intensity == Some(p) && (post.tint_intensity == Some(p) || post.tint_intensity
            == pre.tint_intensity))
        ||| (calls == spec_nudge_calls(
            spec_intensity_calls(base, p, Some(true)),
            INTENSITY_PAUSE_MILLIS,
        ) && pre.enabled && !post.enabled && !post.seen_enabled && post.intensity == Some(p) && (
        post.tint_intensity == Some(p) || post.tint_intensity == pre.tint_intensity))
    })
}

/// Where a failed enabling `set_enabled` can leave the store. The tint
/// parameters were already set best-effort; the intensities and the
/// rendered state are untouched. A failed disable write changes no
/// flag; a failed re-enable leaves the filter off with the agent aware
/// of it — a caller must expect the feature off after such an error.
pub open spec fn spec_enable_write_failure(
    pre: FilterState,
    base: Seq<FilterCall>,
    post: FilterState,
    calls: Seq<FilterCall>,
) -> bool {
    exists|hue_read: Option<i64>|
        #![trigger spec_tint_calls(base, hue_read)]
        ({
            let tinted = spec_tint_calls(base, hue_read);
            &&& (hue_read matches Some(h) ==> Some(h) == pre.hue_milli)
            &&& post.intensity == pre.intensity
            &&& post.tint_intensity == pre.tint_intensity
            &&& post.rendered_intensity == pre.rendered_intensity
            &&& (post.filter_type == Some(COLOR_TINT_FILTER_TYPE) || post.filter_type
                == pre.filter_type)
            &&& (post.hue_milli == Some(spec_orange_milli(spec_orange_hue_for(hue_read)))
                || post.hue_milli == pre.hue_milli)
            &&& ({
                ||| (calls == tinted.push(FilterCall::WriteEnabled(false)) && post.enabled
                    == pre.enabled && post.seen_enabled == pre.seen_enabled)
                ||| (calls == spec_nudge_calls(tinted, NUDGE_PAUSE_MILLIS) && !post.enabled
                    && !post.seen_enabled)
            })
        })
}

/// The fields of the store that setting the tint parameters never
/// touches.
pub open spec fn spec_tint_leaves_rest(pre: FilterState, post: FilterState) -> bool {
    &&& post.enabled == pre.enabled
    &&& post.seen_enabled == pre.seen_enabled
    &&& post.rendered_intensity == pre.rendered_intensity
    &&& post.intensity == pre.intensity
    &&& post.tint_intensity == pre.tint_intensity
}

/// The manual-filter client: everything the controller needs, built
/// from raw key reads and writes against one backing store.
pub struct Filters<S: FilterStore> {
    pub store: S,
}

impl<S: FilterStore> Filters<S> {
    /// Builds the client around an explicitly constructed store.
    pub fn new(store: S) -> (r: Filters<S>)
        ensures
            r.store == store,
    {
        Filters { store }
    }

    /// Ensures the tint parameters are set: forces the filter type to
    /// the color tint and writes the orange target hue in whichever
    /// representation the store currently holds, so that a later
    /// read-back by another tool stays consistent. Both writes are
    /// best-effort: this operation never fails, and a hue written as
    /// degrees means the store was holding degrees.
    pub fn set_fixed_orange_tint(&mut self) -> (r: Result<(), Error>)
        ensures
            r is Ok,
            spec_tint_leaves_rest(old(self).store.state(), final(self).store.state()),
            final(self).store.state().filter_type == Some(COLOR_TINT_FILTER_TYPE) || final(self).store.state().filter_type == old(self).store.state().filter_type,
            exists|hue_read: Option<i64>|
                #![trigger spec_tint_calls(old(self).store.calls(), hue_read)]
                final(self).store.calls() == spec_tint_calls(old(self).store.calls(), hue_read) && (
                hue_read matches Some(h) ==> Some(h) == old(self).store.state().hue_milli) && (
                final(self).store.state().hue_milli == Some(
                    spec_orange_milli(spec_orange_hue_for(hue_read)),
                ) || final(self).store.state().hue_milli == old(self).store.state().hue_milli),
    {
        let _ = self.store.write_filter_type(COLOR_TINT_FILTER_TYPE);
        let current = match self.store.read_hue_milli() {
            Ok(v) => Some(v),
            Err(_) => None,
        };
        let repr = orange_hue_for(current);
        let _ = self.store.write_orange_hue(repr);
        proof {
            assert(self.store.calls() == spec_tint_calls(old(self).store.calls(), current));
            assert(self.store.state().hue_milli == Some(
                spec_orange_milli(spec_orange_hue_for(current)),
            ) || self.store.state().hue_milli == old(self).store.state().hue_milli);
        }
        Ok(())
    }

    /// Enabling forces a full transition: tint parameters first, then
    /// the flag through false, a pause for the agent, and true, so the
    /// agent re-renders whatever it was showing before. Disabling is a
    /// single write.
    pub fn set_enabled(&mut self, enabled: bool) -> (r: Result<(), Error>)
        ensures
            !enabled ==> final(self).store.calls() == old(self).store.calls().push(
                FilterCall::WriteEnabled(false),
            ),
            !enabled && r is Ok ==> final(self).store.state() == spec_write_enabled(
                old(self).store.state(),
                false,
            ),
            !enabled && r is Err ==> final(self).store.state() == old(self).store.state(),
            enabled && r is Ok ==> final(self).store.state().enabled && final(self).store.state().seen_enabled && final(self).store.state().rendered_intensity == old(self).store.state().intensity && final(self).store.state().intensity == old(self).store.state().intensity && final(self).store.state().tint_intensity == old(self).store.state().tint_intensity,
            enabled && r is Ok ==> exists|hue_read: Option<i64>|
                #![trigger spec_tint_calls(old(self).store.calls(), hue_read)]
                final(self).store.calls() == spec_nudge_calls(
                    spec_tint_calls(old(self).store.calls(), hue_read),
                    NUDGE_PAUSE_MILLIS,
                ) && (hue_read matches Some(h) ==> Some(h) == old(self).store.state().hue_milli),
            enabled && r is Err ==> spec_enable_write_failure(
                old(self).store.state(),
                old(self).store.calls(),
                final(self).store.state(),
                final(self).store.calls(),
            ),
            r matches Err(e) ==> e is Write,
    {
        if enabled {
            match self.set_fixed_orange_tint() {
                Ok(_) => {},
                Err(e) => {
                    return Err(e);
                },
            }
            let ghost hr = choose|hr: Option<i64>|
                #![trigger spec_tint_calls(old(self).store.calls(), hr)]
                self.store.calls() == spec_tint_calls(old(self).store.calls(), hr) && (
                hr matches Some(h) ==> Some(h) == old(self).store.state().hue_milli) && (
                self.store.state().hue_milli == Some(
                    spec_orange_milli(spec_orange_hue_for(hr)),
                ) || self.store.state().hue_milli == old(self).store.state().hue_milli);
            match self.store.write_enabled(false) {
                Ok(_) => {},
                Err(e) => {
                    proof {
                        assert(self.store.calls() == spec_tint_calls(
                            old(self).store.calls(),
                            hr,
                        ).push(FilterCall::WriteEnabled(false)));
                    }
                    return Err(e);
                },
            }
            self.store.pause(NUDGE_PAUSE_MILLIS);
            let r = self.store.write_enabled(true);
            proof {
                assert(self.store.calls() == spec_nudge_calls(
                    spec_tint_calls(old(self).store.calls(), hr),
                    NUDGE_PAUSE_MILLIS,
                ));
            }
            r
        } else {
            self.store.write_enabled(false)
        }
    }

    /// Reads the enabled flag.
    pub fn get_enabled(&mut self) -> (r: Result<bool, Error>)
        ensures
            final(self).store.state() == old(self).store.state(),
            r matches Ok(b) ==> b == old(self).store.state().enabled && final(self).store.calls()
                == old(self).store.calls().push(FilterCall::ReadEnabled(Some(b))),
            r is Err ==> final(self).store.calls() == old(self).store.calls().push(
                FilterCall::ReadEnabled(None),
            ),
            r matches Err(e) ==> e is Read,
    {
        self.store.read_enabled()
    }

    /// Stores a new intensity, clamped into 0-100: the primary key
    /// first (its failure is fatal), the legacy key best-effort, and
    /// then, when the store says the filter is enabled, a forced
    /// transition so the change becomes visible at once. When the flag
    /// cannot be read the transition is skipped, as a read failure is
    /// treated as the filter being off.
    pub fn set_intensity(&mut self, percent: i32) -> (r: Result<(), Error>)
        ensures
            r is Ok ==> final(self).store.state().intensity == Some(spec_clamp_percent(percent))
                && final(self).store.state().enabled == old(self).store.state().enabled && final(self).store.state().filter_type == old(self).store.state().filter_type && final(self).store.state().hue_milli == old(self).store.state().hue_milli,
            r is Ok ==> final(self).store.state().tint_intensity == Some(
                spec_clamp_percent(percent),
            ) || final(self).store.state().tint_intensity == old(self).store.state().tint_intensity,
            r is Ok && !old(self).store.state().enabled ==> (final(self).store.calls()
                == spec_intensity_calls(
                old(self).store.calls(),
                spec_clamp_percent(percent),
                Some(false),
            ) || final(self).store.calls() == spec_intensity_calls(
                old(self).store.calls(),
                spec_clamp_percent(percent),
                None,
            )) && final(self).store.state().seen_enabled == old(self).store.state().seen_enabled
                && final(self).store.state().rendered_intensity == old(self).store.state().rendered_intensity,
            r is Ok && old(self).store.state().enabled ==> (final(self).store.calls()
                == spec_intensity_calls(
                old(self).store.calls(),
                spec_clamp_percent(percent),
                None,
            ) && final(self).store.state().rendered_intensity == old(self).store.state().rendered_intensity && final(self).store.state().seen_enabled == old(self).store.state().seen_enabled) || (final(self).store.calls() == spec_nudge_calls(
                spec_intensity_calls(
                    old(self).store.calls(),
                    spec_clamp_percent(percent),
                    Some(true),
                ),
                INTENSITY_PAUSE_MILLIS,
            ) && final(self).store.state().rendered_intensity == Some(spec_clamp_percent(percent))
                && final(self).store.state().seen_enabled),
            r is Err ==> spec_set_intensity_failure(
                old(self).store.state(),
                old(self).store.calls(),
                percent,
                final(self).store.state(),
                final(self).store.calls(),
            ),
            r is Err ==> final(self).store.state().filter_type == old(self).store.state().filter_type && final(self).store.state().hue_milli == old(self).store.state().hue_milli,
            r matches Err(e) ==> e is Write,
    {
        let p: i32 = if percent < 0 {
            0
        } else if percent > 100 {
            100
        } else {
            percent
        };
        match self.store.write_intensity(p) {
            Ok(_) => {},
            Err(e) => {
                return Err(e);
            },
        }
        let _ = self.store.write_tint_intensity(p);
        let currently_on = match self.store.read_enabled() {
            Ok(b) => b,
            Err(_) => false,
        };
        if currently_on {
            match self.store.write_enabled(false) {
                Ok(_) => {},
                Err(e) => {
                    return Err(e);
                },
            }
            self.store.pause(INTENSITY_PAUSE_MILLIS);
            match self.store.write_enabled(true) {
                Ok(_) => {},
                Err(e) => {
                    return Err(e);
                },
            }
        }
        Ok(())
    }

    /// Reads the intensity as a 0-100 percentage: the primary key, and
    /// when that cannot be read, the legacy key. Fails only when both
    /// are unreadable.
    pub fn get_intensity_percent(&mut self) -> (r: Result<i32, Error>)
        ensures
            final(self).store.state() == old(self).store.state(),
            r matches Ok(v) ==> (final(self).store.calls() == old(self).store.calls().push(
                FilterCall::ReadIntensity(Some(v)),
            ) && Some(v) == old(self).store.state().intensity) || (final(self).store.calls()
                == old(self).store.calls().push(FilterCall::ReadIntensity(None)).push(
                FilterCall::ReadTintIntensity(Some(v)),
            ) && Some(v) == old(self).store.state().tint_intensity),
            r matches Err(e) ==> e is Read && final(self).store.calls() == old(
                self,
            ).store.calls().push(FilterCall::ReadIntensity(None)).push(
                FilterCall::ReadTintIntensity(None),
            ),
    {
        match self.store.read_intensity_percent() {
            Ok(v) => Ok(v),
            Err(_) => self.store.read_tint_intensity_percent(),
        }
    }
}

} // verus!
