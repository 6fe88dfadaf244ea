//! The capability set the scheduled-shift controller requires of its
//! backing store, together with a specification-level model of that
//! store and an in-memory fake used to exercise the controller.
//!
//! The model captures one documented quirk of the real store: a
//! successful mode write may disturb the feature's enabled flag as a
//! side effect, so `set_mode`'s contract leaves `enabled` unspecified
//! on success. The controller's enabled-state preservation protocol
//! exists to compensate for exactly that.

use crate::error::Error;
use vstd::prelude::*;

verus! {

/// The model of the scheduled-shift preference store: the enabled
/// flag, the automation mode code, the two stored schedule boundary
/// pairs, and the strength as a 0-100 percentage. The real store keeps
/// the strength as a 0.0-1.0 fraction; its client converts at the
/// boundary.
pub struct ShiftState {
    pub enabled: bool,
    pub mode: i32,
    pub from_time: (u8, u8),
    pub to_time: (u8, u8),
    pub strength: i32,
}

/// One call made against the store, recorded in order. A read records
/// what it returned: the stored value, or `None` when the read failed.
#[derive(Debug, Clone, Copy, PartialEq, Eq)]
pub enum ShiftCall {
    GetEnabled(Option<bool>),
    SetEnabled(bool),
    GetMode(Option<i32>),
    SetMode(i32),
    GetSchedule(Option<((u8, u8), (u8, u8))>),
    SetScheduleTimes(u8, u8, u8, u8),
    GetStrength(Option<i32>),
    SetStrength(i32),
}

/// What the scheduled-shift controller needs from a backing store.
/// Reads never change the store; a failed write leaves it unchanged;
/// every call is appended to the call record. A successful `set_mode`
/// says nothing about the enabled flag: the real store is observed to
/// disturb it.
pub trait ShiftClient: Sized {
    /// The store contents this client gives access to. A client that
    /// does not say what its state is leaves it arbitrary: nothing is
    /// known of a live store beyond what the method contracts relate.
    open spec fn state(&self) -> ShiftState {
        vstd::pervasive::arbitrary()
    }

    /// Every call made through this client, oldest first.
    open spec fn calls(&self) -> Seq<ShiftCall> {
        vstd::pervasive::arbitrary()
    }

    /// Reads the enabled flag.
    fn get_enabled(&mut self) -> (r: Result<bool, Error>)
        ensures
            final(self).state() == old(self).state(),
            final(self).calls() == old(self).calls().push(
                ShiftCall::GetEnabled(
                    match r {
                        Ok(b) => Some(b),
                        Err(_) => None,
                    },
                ),
            ),
            r matches Ok(b) ==> b == old(self).state().enabled,
            r matches Err(e) ==> e is Read,
    ;

    /// Writes the enabled flag.
    fn set_enabled(&mut self, value: bool) -> (r: Result<(), Error>)
        ensures
            final(self).calls() == old(self).calls().push(ShiftCall::SetEnabled(value)),
            r is Ok ==> final(self).state() == (ShiftState { enabled: value, ..old(self).state() }),
            r is Err ==> final(self).state() == old(self).state(),
            r matches Err(e) ==> e is Write,
    ;

    /// Reads the automation mode code.
    fn get_mode(&mut self) -> (r: Result<i32, Error>)
        ensures
            final(self).state() == old(self).state(),
            final(self).calls() == old(self).calls().push(
                ShiftCall::GetMode(
                    match r {
                        Ok(m) => Some(m),
                        Err(_) => None,
                    },
                ),
            ),
            r matches Ok(m) ==> m == old(self).state().mode,
            r matches Err(e) ==> e is Read,
    ;

    /// Writes the automation mode code. On success the mode is set and
    /// the times and strength are untouched, but the enabled flag may
    /// have been disturbed: no clause constrains it.
    fn set_mode(&mut self, mode: i32) -> (r: Result<(), Error>)
        ensures
            final(self).calls() == old(self).calls().push(ShiftCall::SetMode(mode)),
            r is Ok ==> final(self).state().mode == mode && final(self).state().from_time == old(self).state().from_time && final(self).state().to_time == old(self).state().to_time
                && final(self).state().strength == old(self).state().strength,
            r is Err ==> final(self).state().mode == old(self).state().mode && final(self).state().from_time == old(self).state().from_time && final(self).state().to_time
                == old(self).state().to_time && final(self).state().strength == old(self).state().strength,
            r matches Err(e) ==> e is Write,
    ;

    /// Reads the stored schedule boundary pairs.
    fn get_schedule(&mut self) -> (r: Result<((u8, u8), (u8, u8)), Error>)
        ensures
            final(self).state() == old(self).state(),
            final(self).calls() == old(self).calls().push(
                ShiftCall::GetSchedule(
                    match r {
                        Ok(p) => Some(p),
                        Err(_) => None,
                    },
                ),
            ),
            r matches Ok(p) ==> p == (old(self).state().from_time, old(self).state().to_time),
            r matches Err(e) ==> e is Read,
    ;

    /// Writes the schedule boundary pairs.
    fn set_schedule(&mut self, from: (u8, u8), to: (u8, u8)) -> (r: Result<(), Error>)
        ensures
            final(self).calls() == old(self).calls().push(
                ShiftCall::SetScheduleTimes(from.0, from.1, to.0, to.1),
            ),
            r is Ok ==> final(self).state() == (ShiftState {
                from_time: from,
                to_time: to,
                ..old(self).state()
            }),
            r is Err ==> final(self).state() == old(self).state(),
            r matches Err(e) ==> e is Write,
    ;

    /// Reads the strength as a 0-100 percentage.
    fn get_strength(&mut self) -> (r: Result<i32, Error>)
        ensures
            final(self).state() == old(self).state(),
            final(self).calls() == old(self).calls().push(
                ShiftCall::GetStrength(
                    match r {
                        Ok(v) => Some(v),
                        Err(_) => None,
                    },
                ),
            ),
            r matches Ok(v) ==> v == old(self).state().strength,
            r matches Err(e) ==> e is Read,
    ;

    /// Writes the strength as a 0-100 percentage.
    fn set_strength(&mut self, percent: i32) -> (r: Result<(), Error>)
        requires
            0 <= percent <= 100,
        ensures
            final(self).calls() == old(self).calls().push(ShiftCall::SetStrength(percent)),
            r is Ok ==> final(self).state() == (ShiftState {
                strength: percent,
                ..old(self).state()
            }),
            r is Err ==> final(self).state() == old(self).state(),
            r matches Err(e) ==> e is Write,
    ;
}

/// An in-memory store that records every call, for exercising the
/// controller without an operating system behind it. Its `set_mode`
/// emulates the real store's side effect by recomputing the enabled
/// flag, so a controller that skipped the preservation protocol would
/// visibly corrupt it.
pub struct FakeShiftClient {
    pub enabled: bool,
    pub mode: i32,
    pub from_time: (u8, u8),
    pub to_time: (u8, u8),
    pub strength: i32,
    pub log: Vec<ShiftCall>,
}

impl FakeShiftClient {
    /// A store holding the defaults: disabled, no automation, a
    /// 22:00-7:00 span, zero strength, nothing recorded.
    pub fn new() -> (r: FakeShiftClient)
        ensures
            r.state() == (ShiftState {
                enabled: false,
                mode: 0,
                from_time: (22, 0),
                to_time: (7, 0),
                strength: 0,
            }),
            r.calls() == Seq::<ShiftCall>::empty(),
    {
        FakeShiftClient {
            enabled: false,
            mode: 0,
            from_time: (22, 0),
            to_time: (7, 0),
            strength: 0,
            log: Vec::new(),
        }
    }

    /// The calls recorded so far, oldest first.
    pub fn recorded(&self) -> (r: &Vec<ShiftCall>)
        ensures
            r@ == self.calls(),
    {
        &self.log
    }
}

impl ShiftClient for FakeShiftClient {
    open spec fn state(&self) -> ShiftState {
        ShiftState {
            enabled: self.enabled,
            mode: self.mode,
            from_time: self.from_time,
            to_time: self.to_time,
            strength: self.strength,
        }
    }

    open spec fn calls(&self) -> Seq<ShiftCall> {
        self.log@
    }

    fn get_enabled(&mut self) -> (r: Result<bool, Error>) {
        self.log.push(ShiftCall::GetEnabled(Some(self.enabled)));
        Ok(self.enabled)
    }

    fn set_enabled(&mut self, value: bool) -> (r: Result<(), Error>) {
        self.log.push(ShiftCall::SetEnabled(value));
        self.enabled = value;
        Ok(())
    }

    fn get_mode(&mut self) -> (r: Result<i32, Error>) {
        self.log.push(ShiftCall::GetMode(Some(self.mode)));
        Ok(self.mode)
    }

    fn set_mode(&mut self, mode: i32) -> (r: Result<(), Error>) {
        self.log.push(ShiftCall::SetMode(mode));
        self.mode = mode;
        // Emulates the real store: a mode write re-derives the enabled
        // flag, so the caller's view of it is disturbed.
        self.enabled = mode != 0;
        Ok(())
    }

    fn get_schedule(&mut self) -> (r: Result<((u8, u8), (u8, u8)), Error>) {
        self.log.push(ShiftCall::GetSchedule(Some((self.from_time, self.to_time))));
        Ok((self.from_time, self.to_time))
    }

    fn set_schedule(&mut self, from: (u8, u8), to: (u8, u8)) -> (r: Result<(), Error>) {
        self.log.push(ShiftCall::SetScheduleTimes(from.0, from.1, to.0, to.1));
        self.from_time = from;
        self.to_time = to;
        Ok(())
    }

    fn get_strength(&mut self) -> (r: Result<i32, Error>) {
        self.log.push(ShiftCall::GetStrength(Some(self.strength)));
        Ok(self.strength)
    }

    fn set_strength(&mut self, percent: i32) -> (r: Result<(), Error>) {
        self.log.push(ShiftCall::SetStrength(percent));
        self.strength = percent;
        Ok(())
    }
}

} // verus!
