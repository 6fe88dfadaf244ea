//! The capability set the manual-filter controller requires of its
//! backing store, a specification-level model of that store, and an
//! in-memory fake used to exercise the controller.
//!
//! The model captures the store's edge-triggered rendering: a separate
//! agent re-renders the tint only when it observes the enabled flag go
//! from false to true. The agent needs time to observe a write, which
//! is what `pause` models: after a pause the agent has seen the current
//! flag. Writing `true` over a flag the agent last saw as `true` —
//! or changing only the intensity while enabled — re-renders nothing.

use crate::error::Error;
use vstd::prelude::*;

verus! {

/// The stored hue is kept either as degrees (0-360) or as a normalized
/// fraction (0.0-1.0), depending on OS version and history. Writes must
/// match whichever representation is currently stored.
#[derive(Debug, Clone, Copy, PartialEq, Eq, Structural)]
pub enum HueRepr {
    Degrees,
    Normalized,
}

/// A stored hue value of more than this, in thousandths, is taken to be
/// degrees rather than a normalized fraction.
pub const DEGREES_THRESHOLD_MILLI: i64 = 1500;

/// The orange target hue in degrees, in thousandths: 30 degrees.
pub const ORANGE_DEGREES_MILLI: i64 = 30000;

/// The orange target hue as a normalized fraction, in thousandths:
/// 30/360 rounds to 0.083.
pub const ORANGE_NORMALIZED_MILLI: i64 = 83;

/// The stored filter-type code selecting a color tint.
pub const COLOR_TINT_FILTER_TYPE: i32 = 4;

/// How long a forced transition waits between disabling and re-enabling
/// the filter, in milliseconds.
pub const NUDGE_PAUSE_MILLIS: u64 = 150;

/// How long an intensity change waits inside its forced transition, in
/// milliseconds.
pub const INTENSITY_PAUSE_MILLIS: u64 = 100;

/// The hue value, in thousandths, that writing the orange target in the
/// given representation stores.
pub open spec fn spec_orange_milli(repr: HueRepr) -> i64 {
    match repr {
        HueRepr::Degrees => ORANGE_DEGREES_MILLI,
        HueRepr::Normalized => ORANGE_NORMALIZED_MILLI,
    }
}

/// The model of the manual-filter preference store. `None` stands for
/// a key the store does not hold. Intensities are 0-100 percentages
/// (the real store keeps 0.0-1.0 fractions; its client converts), the
/// hue is in thousandths. `seen_enabled` is the enabled value the
/// rendering agent has last observed, and `rendered_intensity` is the
/// intensity it last applied to the screen: neither is a preference
/// key, they model the agent.
pub struct FilterState {
    pub enabled: bool,
    pub seen_enabled: bool,
    pub rendered_intensity: Option<i32>,
    pub intensity: Option<i32>,
    pub tint_intensity: Option<i32>,
    pub filter_type: Option<i32>,
    pub hue_milli: Option<i64>,
}

/// What a successful enabled-flag write does to the store. A `true`
/// written over a flag the agent last saw as `false` is a rising edge:
/// the agent re-renders, applying the stored intensity. Anything else
/// changes the flag alone.
pub open spec fn spec_write_enabled(s: FilterState, value: bool) -> FilterState {
    if value && !s.seen_enabled {
        FilterState {
            enabled: true,
            seen_enabled: true,
            rendered_intensity: s.intensity,
            ..s
        }
    } else {
        FilterState { enabled: value, ..s }
    }
}

/// What a pause does to the store: the agent catches up with the
/// current enabled flag.
pub open spec fn spec_observe(s: FilterState) -> FilterState {
    FilterState { seen_enabled: s.enabled, ..s }
}

/// Law: the pause inside a forced transition is load-bearing. From a
/// store whose agent is up to date with an enabled filter, writing
/// `false` and then `true` with no pause between renders nothing — the
/// agent never saw the falling edge — while the same writes around a
/// pause render the stored intensity. Dropping the pause reintroduces
/// the missed re-render the protocol exists to prevent.
pub proof fn lemma_nudge_needs_pause(s: FilterState)
    requires
        s.enabled,
        s.seen_enabled,
    ensures
        spec_write_enabled(spec_write_enabled(s, false), true).rendered_intensity
            == s.rendered_intensity,
        spec_write_enabled(spec_observe(spec_write_enabled(s, false)), true).rendered_intensity
            == s.intensity,
{
}

/// One call made against the store, recorded in order. A read records
/// what it returned: the stored value, or `None` when the read failed.
#[derive(Debug, Clone, Copy, PartialEq, Eq)]
pub enum FilterCall {
    WriteEnabled(bool),
    ReadEnabled(Option<bool>),
    WriteIntensity(i32),
    WriteTintIntensity(i32),
    ReadIntensity(Option<i32>),
    ReadTintIntensity(Option<i32>),
    WriteFilterType(i32),
    ReadHue(Option<i64>),
    WriteOrangeHue(HueRepr),
    Pause(u64),
}

/// What the manual-filter controller needs from a backing store. Reads
/// never change the store; a failed write leaves it unchanged; every
/// call is appended to the call record. A read returns `Ok` only with
/// the stored value, and can fail whenever the key is absent or the
/// store is unreachable.
pub trait FilterStore: Sized {
    /// The store contents this client gives access to. A client that
    /// does not say what its state is leaves it arbitrary: nothing is
    /// known of a live store beyond what the method contracts relate.
    open spec fn state(&self) -> FilterState {
        vstd::pervasive::arbitrary()
    }

    /// Every call made through this client, oldest first.
    open spec fn calls(&self) -> Seq<FilterCall> {
        vstd::pervasive::arbitrary()
    }

    /// Writes the enabled flag; a rising edge observed by the agent
    /// re-renders the tint.
    fn write_enabled(&mut self, value: bool) -> (r: Result<(), Error>)
        ensures
            final(self).calls() == old(self).calls().push(FilterCall::WriteEnabled(value)),
            r is Ok ==> final(self).state() == spec_write_enabled(old(self).state(), value),
            r is Err ==> final(self).state() == old(self).state(),
            r matches Err(e) ==> e is Write,
    ;

    /// Reads the enabled flag.
    fn read_enabled(&mut self) -> (r: Result<bool, Error>)
        ensures
            final(self).state() == old(self).state(),
            final(self).calls() == old(self).calls().push(
                FilterCall::ReadEnabled(
                    match r {
                        Ok(b) => Some(b),
                        Err(_) => None,
                    },
                ),
            ),
            r matches Ok(b) ==> b == old(self).state().enabled,
            r matches Err(e) ==> e is Read,
    ;

    /// Blocks long enough for the rendering agent to observe the
    /// current enabled flag (on the order of 100-150 ms). The wait is
    /// what makes a forced transition reliable: without it the agent
    /// can miss the falling edge and the rising edge renders nothing.
    fn pause(&mut self, millis: u64)
        requires
            millis > 0,
        ensures
            final(self).calls() == old(self).calls().push(FilterCall::Pause(millis)),
            final(self).state() == spec_observe(old(self).state()),
    ;

    /// Writes the primary intensity key, as a 0-100 percentage.
    fn write_intensity(&mut self, percent: i32) -> (r: Result<(), Error>)
        requires
            0 <= percent <= 100,
        ensures
            final(self).calls() == old(self).calls().push(FilterCall::WriteIntensity(percent)),
            r is Ok ==> final(self).state() == (FilterState {
                intensity: Some(percent),
                ..old(self).state()
            }),
            r is Err ==> final(self).state() == old(self).state(),
            r matches Err(e) ==> e is Write,
    ;

    /// Writes the secondary, legacy intensity key.
    fn write_tint_intensity(&mut self, percent: i32) -> (r: Result<(), Error>)
        requires
            0 <= percent <= 100,
        ensures
            final(self).calls() == old(self).calls().push(
                FilterCall::WriteTintIntensity(percent),
            ),
            r is Ok ==> final(self).state() == (FilterState {
                tint_intensity: Some(percent),
                ..old(self).state()
            }),
            r is Err ==> final(self).state() == old(self).state(),
            r matches Err(e) ==> e is Write,
    ;

    /// Reads the primary intensity key as a rounded 0-100 percentage.
    fn read_intensity_percent(&mut self) -> (r: Result<i32, Error>)
        ensures
            final(self).state() == old(self).state(),
            final(self).calls() == old(self).calls().push(
                FilterCall::ReadIntensity(
                    match r {
                        Ok(v) => Some(v),
                        Err(_) => None,
                    },
                ),
            ),
            r matches Ok(v) ==> Some(v) == old(self).state().intensity,
            r matches Err(e) ==> e is Read,
    ;

    /// Reads the secondary, legacy intensity key as a rounded 0-100
    /// percentage.
    fn read_tint_intensity_percent(&mut self) -> (r: Result<i32, Error>)
        ensures
            final(self).state() == old(self).state(),
            final(self).calls() == old(self).calls().push(
                FilterCall::ReadTintIntensity(
                    match r {
                        Ok(v) => Some(v),
                        Err(_) => None,
                    },
                ),
            ),
            r matches Ok(v) ==> Some(v) == old(self).state().tint_intensity,
            r matches Err(e) ==> e is Read,
    ;

    /// Writes the filter-type code.
    fn write_filter_type(&mut self, code: i32) -> (r: Result<(), Error>)
        ensures
            final(self).calls() == old(self).calls().push(FilterCall::WriteFilterType(code)),
            r is Ok ==> final(self).state() == (FilterState {
                filter_type: Some(code),
                ..old(self).state()
            }),
            r is Err ==> final(self).state() == old(self).state(),
            r matches Err(e) ==> e is Write,
    ;

    /// Reads the stored hue, in thousandths of its stored unit.
    fn read_hue_milli(&mut self) -> (r: Result<i64, Error>)
        ensures
            final(self).state() == old(self).state(),
            final(self).calls() == old(self).calls().push(
                FilterCall::ReadHue(
                    match r {
                        Ok(v) => Some(v),
                        Err(_) => None,
                    },
                ),
            ),
            r matches Ok(v) ==> Some(v) == old(self).state().hue_milli,
            r matches Err(e) ==> e is Read,
    ;

    /// Writes the orange target hue in the given representation.
    fn write_orange_hue(&mut self, repr: HueRepr) -> (r: Result<(), Error>)
        ensures
            final(self).calls() == old(self).calls().push(FilterCall::WriteOrangeHue(repr)),
            r is Ok ==> final(self).state() == (FilterState {
                hue_milli: Some(spec_orange_milli(repr)),
                ..old(self).state()
            }),
            r is Err ==> final(self).state() == old(self).state(),
            r matches Err(e) ==> e is Write,
    ;
}

/// An in-memory store that records every call, for exercising the
/// controller without an operating system behind it. Reads of an
/// absent key fail; everything else succeeds. The rendering agent is
/// emulated exactly as the model describes it.
pub struct FakeFilterStore {
    pub enabled: bool,
    pub seen_enabled: bool,
    pub rendered_intensity: Option<i32>,
    pub intensity: Option<i32>,
    pub tint_intensity: Option<i32>,
    pub filter_type: Option<i32>,
    pub hue_milli: Option<i64>,
    pub log: Vec<FilterCall>,
}

impl FakeFilterStore {
    /// A store holding no keys at all: disabled, agent in agreement,
    /// nothing rendered, nothing recorded.
    pub fn new() -> (r: FakeFilterStore)
        ensures
            r.state() == (FilterState {
                enabled: false,
                seen_enabled: false,
                rendered_intensity: None,
                intensity: None,
                tint_intensity: None,
                filter_type: None,
                hue_milli: None,
            }),
            r.calls() == Seq::<FilterCall>::empty(),
    {
        FakeFilterStore {
            enabled: false,
            seen_enabled: false,
            rendered_intensity: None,
            intensity: None,
            tint_intensity: None,
            filter_type: None,
            hue_milli: None,
            log: Vec::new(),
        }
    }

    /// The calls recorded so far, oldest first.
    pub fn recorded(&self) -> (r: &Vec<FilterCall>)
        ensures
            r@ == self.calls(),
    {
        &self.log
    }
}

impl FilterStore for FakeFilterStore {
    open spec fn state(&self) -> FilterState {
        FilterState {
            enabled: self.enabled,
            seen_enabled: self.seen_enabled,
            rendered_intensity: self.rendered_intensity,
            intensity: self.intensity,
            tint_intensity: self.tint_intensity,
            filter_type: self.filter_type,
            hue_milli: self.hue_milli,
        }
    }

    open spec fn calls(&self) -> Seq<FilterCall> {
        self.log@
    }

    fn write_enabled(&mut self, value: bool) -> (r: Result<(), Error>) {
        self.log.push(FilterCall::WriteEnabled(value));
        if value && !self.seen_enabled {
            self.enabled = true;
            self.seen_enabled = true;
            self.rendered_intensity = self.intensity;
        } else {
            self.enabled = value;
        }
        Ok(())
    }

    fn read_enabled(&mut self) -> (r: Result<bool, Error>) {
        self.log.push(FilterCall::ReadEnabled(Some(self.enabled)));
        Ok(self.enabled)
    }

    fn pause(&mut self, millis: u64) {
        self.log.push(FilterCall::Pause(millis));
        self.seen_enabled = self.enabled;
    }

    fn write_intensity(&mut self, percent: i32) -> (r: Result<(), Error>) {
        self.log.push(FilterCall::WriteIntensity(percent));
        self.intensity = Some(percent);
        Ok(())
    }

    fn write_tint_intensity(&mut self, percent: i32) -> (r: Result<(), Error>) {
        self.log.push(FilterCall::WriteTintIntensity(percent));
        self.tint_intensity = Some(percent);
        Ok(())
    }

    fn read_intensity_percent(&mut self) -> (r: Result<i32, Error>) {
        self.log.push(FilterCall::ReadIntensity(self.intensity));
        match self.intensity {
            Some(v) => Ok(v),
            None => Err(Error::Read(String::from_str("No intensity is stored"))),
        }
    }

    fn read_tint_intensity_percent(&mut self) -> (r: Result<i32, Error>) {
        self.log.push(FilterCall::ReadTintIntensity(self.tint_intensity));
        match self.tint_intensity {
            Some(v) => Ok(v),
            None => Err(Error::Read(String::from_str("No legacy intensity is stored"))),
        }
    }

    fn write_filter_type(&mut self, code: i32) -> (r: Result<(), Error>) {
        self.log.push(FilterCall::WriteFilterType(code));
        self.filter_type = Some(code);
        Ok(())
    }

    fn read_hue_milli(&mut self) -> (r: Result<i64, Error>) {
        self.log.push(FilterCall::ReadHue(self.hue_milli));
        match self.hue_milli {
            Some(v) => Ok(v),
            None => Err(Error::Read(String::from_str("No hue is stored"))),
        }
    }

    fn write_orange_hue(&mut self, repr: HueRepr) -> (r: Result<(), Error>) {
        self.log.push(FilterCall::WriteOrangeHue(repr));
        self.hue_milli = Some(
            match repr {
                HueRepr::Degrees => ORANGE_DEGREES_MILLI,
                HueRepr::Normalized => ORANGE_NORMALIZED_MILLI,
            },
        );
        Ok(())
    }
}

} // verus!
