//! The scheduled-shift controller. Each operation is a short, ordered
//! sequence of reads and writes against the backing store; the central
//! guarantee is that changing the automation mode never flips the
//! feature on or off as a side effect.

use crate::error::Error;
use crate::schedule::Schedule;
use crate::shift_client::{ShiftCall, ShiftClient, ShiftState};
use crate::status::Status;
use vstd::prelude::*;

verus! {

/// The calls `set_schedule` issues on success: read the current
/// enabled flag first, write the mode (and, for a custom schedule, its
/// times), and re-apply the flag that was read as the last write.
pub open spec fn spec_set_schedule_calls(
    base: Seq<ShiftCall>,
    schedule: Schedule,
    enabled: bool,
) -> Seq<ShiftCall> {
    let read = base.push(ShiftCall::GetEnabled(Some(enabled)));
    match schedule {
        Schedule::Off => read.push(ShiftCall::SetMode(0)).push(ShiftCall::SetEnabled(enabled)),
        Schedule::SunsetToSunrise => read.push(ShiftCall::SetMode(1)).push(
            ShiftCall::SetEnabled(enabled),
        ),
        Schedule::Custom(a, b) => read.push(ShiftCall::SetMode(2)).push(
            ShiftCall::SetScheduleTimes(a.hour, a.minute, b.hour, b.minute),
        ).push(ShiftCall::SetEnabled(enabled)),
    }
}

/// Where a failed write inside `set_schedule` can leave the store: one
/// disjunct per failure point of the protocol, after a successful
/// status read. A failed mode write leaves everything but possibly the
/// enabled flag; a failed time write comes after the mode was already
/// changed; a failed final re-apply leaves mode and times written and
/// the enabled flag wherever the mode write put it — a caller must
/// expect the feature off after such an error. The strength is never
/// touched.
pub open spec fn spec_set_schedule_write_failure(
    pre: ShiftState,
    base: Seq<ShiftCall>,
    schedule: Schedule,
    post: ShiftState,
    calls: Seq<ShiftCall>,
) -> bool {
    let mc = schedule.mode_code_spec();
    let read = base.push(ShiftCall::GetEnabled(Some(pre.enabled)));
    &&& post.strength == pre.strength
    &&& ({
        ||| (calls == read.push(ShiftCall::SetMode(mc)) && post.mode == pre.mode
            && post.from_time == pre.from_time && post.to_time == pre.to_time)
        ||| (schedule matches Schedule::Custom(a, b) && calls == read.push(
            ShiftCall::SetMode(2),
        ).push(ShiftCall::SetScheduleTimes(a.hour, a.minute, b.hour, b.minute)) && post.mode == 2
            && post.from_time == pre.from_time && post.to_time == pre.to_time)
        ||| (calls == spec_set_schedule_calls(base, schedule, pre.enabled) && post.mode == mc && (
        schedule matches Schedule::Custom(a, b) ==> post.from_time == (a.hour, a.minute)
            && post.to_time == (b.hour, b.minute)) && (!(schedule is Custom) ==> post.from_time
            == pre.from_time && post.to_time == pre.to_time))
    })
}

/// The message `toggle` reports when the enabled write fails.
pub open spec fn spec_toggle_error_message(status: Status) -> Seq<char> {
    match status {
        Status::On => "Failed to turn Night Shift On"@,
        Status::Off => "Failed to turn Night Shift Off"@,
    }
}

/// Controller for the scheduled blue-light reduction feature. It holds
/// no state of its own: everything lives in the backing store.
pub struct NightLight<C: ShiftClient> {
    pub client: C,
}

impl<C: ShiftClient> NightLight<C> {
    /// Builds a controller around an explicitly constructed client.
    pub fn new(client: C) -> (r: NightLight<C>)
        ensures
            r.client == client,
    {
        NightLight { client }
    }

    /// Turns the feature on, whatever the schedule says.
    pub fn on(&mut self) -> (r: Result<(), Error>)
        ensures
            final(self).client.calls() == old(self).client.calls().push(
                ShiftCall::SetEnabled(true),
            ),
            r is Ok ==> final(self).client.state() == (ShiftState {
                enabled: true,
                ..old(self).client.state()
            }),
            r matches Err(e) ==> e matches Error::Write(m) && m@ == spec_toggle_error_message(
                Status::On,
            ) && final(self).client.state() == old(self).client.state(),
    {
        self.toggle(Status::On)
    }

    /// Turns the feature off, whatever the schedule says.
    pub fn off(&mut self) -> (r: Result<(), Error>)
        ensures
            final(self).client.calls() == old(self).client.calls().push(
                ShiftCall::SetEnabled(false),
            ),
            r is Ok ==> final(self).client.state() == (ShiftState {
                enabled: false,
                ..old(self).client.state()
            }),
            r matches Err(e) ==> e matches Error::Write(m) && m@ == spec_toggle_error_message(
                Status::Off,
            ) && final(self).client.state() == old(self).client.state(),
    {
        self.toggle(Status::Off)
    }

    /// Sets the feature to exactly the given status.
    pub fn toggle(&mut self, status: Status) -> (r: Result<(), Error>)
        ensures
            final(self).client.calls() == old(self).client.calls().push(
                ShiftCall::SetEnabled(status.as_bool_spec()),
            ),
            r is Ok ==> final(self).client.state() == (ShiftState {
                enabled: status.as_bool_spec(),
                ..old(self).client.state()
            }),
            r matches Err(e) ==> e matches Error::Write(m) && m@ == spec_toggle_error_message(
                status,
            ) && final(self).client.state() == old(self).client.state(),
    {
        match self.client.set_enabled(status.as_bool()) {
            Ok(_) => Ok(()),
            Err(_) => Err(
                Error::Write(
                    match status {
                        Status::On => String::from_str("Failed to turn Night Shift On"),
                        Status::Off => String::from_str("Failed to turn Night Shift Off"),
                    },
                ),
            ),
        }
    }

    /// Reads the feature's current on/off status.
    pub fn status(&mut self) -> (r: Result<Status, Error>)
        ensures
            final(self).client.state() == old(self).client.state(),
            r is Ok ==> final(self).client.calls() == old(self).client.calls().push(
                ShiftCall::GetEnabled(Some(old(self).client.state().enabled)),
            ),
            r is Err ==> final(self).client.calls() == old(self).client.calls().push(
                ShiftCall::GetEnabled(None),
            ),
            r matches Ok(st) ==> st == Status::from_bool_spec(old(self).client.state().enabled),
            r matches Err(e) ==> e is Read,
    {
        match self.client.get_enabled() {
            Ok(b) => Ok(Status::from_bool(b)),
            Err(e) => Err(e),
        }
    }

    /// Changes the automation mode while preserving the enabled flag.
    ///
    /// A successful mode write may disturb the flag, so the current
    /// status is read before anything is touched and re-applied as the
    /// last write — even when the mode is unchanged in substance, since
    /// skipping the re-apply would reintroduce the side effect. From
    /// the caller's view this operation changes the automation rule and
    /// nothing else.
    pub fn set_schedule(&mut self, schedule: Schedule) -> (r: Result<(), Error>)
        requires
            schedule.wf(),
        ensures
            r is Ok ==> final(self).client.state().enabled == old(self).client.state().enabled,
            r is Ok ==> final(self).client.state().mode == schedule.mode_code_spec(),
            r is Ok ==> final(self).client.state().strength == old(self).client.state().strength,
            r is Ok ==> (schedule matches Schedule::Custom(a, b) ==> final(self).client.state().from_time == (a.hour, a.minute) && final(self).client.state().to_time
                == (b.hour, b.minute)),
            r is Ok ==> (!(schedule is Custom) ==> final(self).client.state().from_time == old(self).client.state().from_time && final(self).client.state().to_time == old(self).client.state().to_time),
            r is Ok ==> final(self).client.calls() == spec_set_schedule_calls(
                old(self).client.calls(),
                schedule,
                old(self).client.state().enabled,
            ),
            r matches Err(e) ==> e is Read || e is Write,
            r matches Err(e) ==> (e is Read ==> final(self).client.state() == old(self).client.state() && final(self).client.calls() == old(self).client.calls().push(
                ShiftCall::GetEnabled(None),
            )),
            r matches Err(e) ==> (e is Write ==> spec_set_schedule_write_failure(
                old(self).client.state(),
                old(self).client.calls(),
                schedule,
                final(self).client.state(),
                final(self).client.calls(),
            )),
    {
        let status = match self.status() {
            Ok(s) => s,
            Err(e) => {
                return Err(e);
            },
        };
        match schedule {
            Schedule::Off => {
                match self.client.set_mode(0) {
                    Ok(_) => {},
                    Err(e) => {
                        return Err(e);
                    },
                }
            },
            Schedule::SunsetToSunrise => {
                match self.client.set_mode(1) {
                    Ok(_) => {},
                    Err(e) => {
                        return Err(e);
                    },
                }
            },
            Schedule::Custom(from, to) => {
                match self.client.set_mode(2) {
                    Ok(_) => {},
                    Err(e) => {
                        return Err(e);
                    },
                }
                match self.client.set_schedule(from.to_pair(), to.to_pair()) {
                    Ok(_) => {},
                    Err(e) => {
                        return Err(e);
                    },
                }
            },
        }
        self.toggle(status)
    }

    /// Reads and decodes the stored schedule. A stored mode outside
    /// {0, 1, 2} or an out-of-range stored time is surfaced as an
    /// error, never silently defaulted.
    pub fn get_schedule(&mut self) -> (r: Result<Schedule, Error>)
        ensures
            final(self).client.state() == old(self).client.state(),
            r matches Ok(s) ==> Some(s) == Schedule::spec_decode(
                old(self).client.state().mode,
                old(self).client.state().from_time,
                old(self).client.state().to_time,
            ) && s.wf(),
            r matches Err(e) ==> e is Read || e is Parse || e is UnrecognizedMode,
            r matches Err(e) ==> (!(e is Read) ==> Schedule::spec_decode(
                old(self).client.state().mode,
                old(self).client.state().from_time,
                old(self).client.state().to_time,
            ) is None),
            r matches Err(e) ==> (e is Parse ==> !crate::schedule::spec_pairs_valid(
                old(self).client.state().from_time,
                old(self).client.state().to_time,
            )),
            r matches Err(e) ==> (e matches Error::UnrecognizedMode(m)
                ==> crate::schedule::spec_pairs_valid(
                old(self).client.state().from_time,
                old(self).client.state().to_time,
            ) && !(0 <= old(self).client.state().mode <= 2) && m@
                == "Unrecognized schedule type"@),
            ({
                let both = old(self).client.calls().push(
                    ShiftCall::GetSchedule(
                        Some((old(self).client.state().from_time, old(self).client.state().to_time)),
                    ),
                ).push(ShiftCall::GetMode(Some(old(self).client.state().mode)));
                &&& (r is Ok ==> final(self).client.calls() == both)
                &&& (r matches Err(e) ==> {
                    if e is Read {
                        final(self).client.calls() == old(self).client.calls().push(
                            ShiftCall::GetSchedule(None),
                        ) || final(self).client.calls() == old(self).client.calls().push(
                            ShiftCall::GetSchedule(
                                Some(
                                    (
                                        old(self).client.state().from_time,
                                        old(self).client.state().to_time,
                                    ),
                                ),
                            ),
                        ).push(ShiftCall::GetMode(None))
                    } else {
                        final(self).client.calls() == both
                    }
                })
            }),
    {
        let pairs = match self.client.get_schedule() {
            Ok(p) => p,
            Err(e) => {
                return Err(e);
            },
        };
        let mode = match self.client.get_mode() {
            Ok(m) => m,
            Err(e) => {
                return Err(e);
            },
        };
        Self::schedule(mode, pairs.0, pairs.1)
    }

    /// Validates and writes the color temperature as a percentage. The
    /// backing store keeps it normalized to 0.0-1.0; its client divides
    /// by 100 at the boundary.
    pub fn set_temp(&mut self, temp: i32) -> (r: Result<(), Error>)
        ensures
            (temp < 0 || temp > 100) <==> (r matches Err(e) && e is Validation),
            (temp < 0 || temp > 100) ==> final(self).client.state() == old(self).client.state()
                && final(self).client.calls() == old(self).client.calls(),
            r is Ok ==> 0 <= temp <= 100 && final(self).client.state() == (ShiftState {
                strength: temp,
                ..old(self).client.state()
            }) && final(self).client.calls() == old(self).client.calls().push(
                ShiftCall::SetStrength(temp),
            ),
            (temp < 0 || temp > 100) ==> (r matches Err(e) && e matches Error::Validation(m)
                && m@ == "Color temperature must be a number from 0 to 100."@),
            r matches Err(e) ==> e is Validation || (e is Write && final(self).client.state()
                == old(self).client.state() && final(self).client.calls() == old(self).client.calls().push(ShiftCall::SetStrength(temp))),
    {
        if temp < 0 || temp > 100 {
            return Err(
                Error::Validation(
                    String::from_str("Color temperature must be a number from 0 to 100."),
                ),
            );
        }
        self.client.set_strength(temp)
    }

    /// Reads the color temperature back as a 0-100 percentage.
    pub fn get_temp(&mut self) -> (r: Result<i32, Error>)
        ensures
            final(self).client.state() == old(self).client.state(),
            r matches Ok(v) ==> v == old(self).client.state().strength && final(self).client.calls() == old(self).client.calls().push(ShiftCall::GetStrength(Some(v))),
            r is Err ==> final(self).client.calls() == old(self).client.calls().push(
                ShiftCall::GetStrength(None),
            ),
            r matches Err(e) ==> e is Read,
    {
        self.client.get_strength()
    }

    /// Decodes a (mode, from-pair, to-pair) triple as read from the
    /// store.
    pub fn schedule(mode: i32, from: (u8, u8), to: (u8, u8)) -> (r: Result<Schedule, Error>)
        ensures
            r is Ok <==> Schedule::spec_decode(mode, from, to) is Some,
            r matches Ok(s) ==> Some(s) == Schedule::spec_decode(mode, from, to) && s.wf(),
            r matches Err(e) ==> ({
                if !crate::schedule::spec_pairs_valid(from, to) {
                    e matches Error::Parse(msg) && msg@ == "Stored time is out of range"@
                } else {
                    e matches Error::UnrecognizedMode(msg) && msg@ == "Unrecognized schedule type"@
                }
            }),
    {
        Schedule::from_mode_and_times(mode, from, to)
    }
}

} // verus!
