//! The scheduled-shift feature's automation mode: off, the system's
//! day/night computation, or a custom span between two fixed clock
//! times. A custom span may run overnight: no ordering between its two
//! times is enforced.

use crate::error::Error;
use crate::time::Time;
use vstd::prelude::*;

verus! {

/// The automation mode the backing store holds for the scheduled-shift
/// feature, as an integer mode code plus two stored time pairs.
#[derive(Debug, Clone, Copy, PartialEq, Eq, Structural)]
pub enum Schedule {
    Off,
    SunsetToSunrise,
    Custom(Time, Time),
}

/// Both stored time pairs are in range.
pub open spec fn spec_pairs_valid(from: (u8, u8), to: (u8, u8)) -> bool {
    from.0 <= 23 && from.1 <= 59 && to.0 <= 23 && to.1 <= 59
}

impl Schedule {
    /// A custom span carries only valid times.
    pub open spec fn wf(&self) -> bool {
        match self {
            Schedule::Custom(a, b) => a.wf() && b.wf(),
            _ => true,
        }
    }

    /// The integer mode code the backing store uses for this mode.
    pub open spec fn mode_code_spec(&self) -> i32 {
        match self {
            Schedule::Off => 0,
            Schedule::SunsetToSunrise => 1,
            Schedule::Custom(_, _) => 2,
        }
    }

    /// The time pair a custom span carries.
    pub open spec fn times_spec(&self) -> Option<(Time, Time)> {
        match self {
            Schedule::Custom(a, b) => Some((*a, *b)),
            _ => None,
        }
    }

    /// Encodes the schedule as the (mode code, optional time pair) the
    /// backing store takes: `Off` is 0, `SunsetToSunrise` is 1, and
    /// `Custom` is 2 with its two times.
    pub fn to_mode_and_times(&self) -> (r: (i32, Option<(Time, Time)>))
        ensures
            r.0 == self.mode_code_spec(),
            r.1 == self.times_spec(),
    {
        match self {
            Schedule::Off => (0, None),
            Schedule::SunsetToSunrise => (1, None),
            Schedule::Custom(a, b) => (2, Some((*a, *b))),
        }
    }

    /// The schedule a stored (mode, from-pair, to-pair) triple denotes,
    /// if any: `None` when a pair is out of range or the mode code is
    /// not 0, 1 or 2.
    pub open spec fn spec_decode(mode: i32, from: (u8, u8), to: (u8, u8)) -> Option<Schedule> {
        if !spec_pairs_valid(from, to) {
            None
        } else if mode == 0 {
            Some(Schedule::Off)
        } else if mode == 1 {
            Some(Schedule::SunsetToSunrise)
        } else if mode == 2 {
            Some(
                Schedule::Custom(
                    Time { hour: from.0, minute: from.1 },
                    Time { hour: to.0, minute: to.1 },
                ),
            )
        } else {
            None
        }
    }

    /// Decodes a stored triple, the inverse of `to_mode_and_times`. A
    /// mode code outside {0, 1, 2} is surfaced as `UnrecognizedMode`
    /// rather than silently defaulted: the store may hold a value
    /// written by another tool, and reporting a schedule that differs
    /// from what is on disk would mislead the user. An out-of-range
    /// time pair is rejected the same way `Time::from_pair` rejects it.
    pub fn from_mode_and_times(mode: i32, from: (u8, u8), to: (u8, u8)) -> (r: Result<
        Schedule,
        Error,
    >)
        ensures
            r is Ok <==> Schedule::spec_decode(mode, from, to) is Some,
            r matches Ok(s) ==> Some(s) == Schedule::spec_decode(mode, from, to) && s.wf(),
            r matches Err(e) ==> ({
                if !spec_pairs_valid(from, to) {
                    e matches Error::Parse(msg) && msg@ == "Stored time is out of range"@
                } else {
                    e matches Error::UnrecognizedMode(msg) && msg@ == "Unrecognized schedule type"@
                }
            }),
    {
        let f = match Time::from_pair(from.0, from.1) {
            Ok(t) => t,
            Err(e) => {
                return Err(e);
            },
        };
        let t = match Time::from_pair(to.0, to.1) {
            Ok(t) => t,
            Err(e) => {
                return Err(e);
            },
        };
        if mode == 0 {
            Ok(Schedule::Off)
        } else if mode == 1 {
            Ok(Schedule::SunsetToSunrise)
        } else if mode == 2 {
            Ok(Schedule::Custom(f, t))
        } else {
            Err(Error::UnrecognizedMode(String::from_str("Unrecognized schedule type")))
        }
    }

    /// The text a human reads for this schedule.
    pub open spec fn display_spec(&self) -> Seq<char> {
        match self {
            Schedule::Off => "Off"@,
            Schedule::SunsetToSunrise => "Sunset to Sunrise"@,
            Schedule::Custom(a, b) => "Custom: "@ + a.display_spec() + " to "@ + b.display_spec(),
        }
    }

    /// Renders the schedule, custom spans with both boundary times.
    pub fn display_string(&self) -> (r: String)
        requires
            self.wf(),
        ensures
            r@ == self.display_spec(),
    {
        match self {
            Schedule::Off => String::from_str("Off"),
            Schedule::SunsetToSunrise => String::from_str("Sunset to Sunrise"),
            Schedule::Custom(a, b) => {
                let mut s = String::from_str("Custom: ");
                let af = a.display_string();
                s.append(af.as_str());
                s.append(" to ");
                let bf = b.display_string();
                s.append(bf.as_str());
                proof {
                    assert(s@ =~= self.display_spec());
                }
                s
            },
        }
    }
}

/// Law: decoding a valid stored triple and encoding the result yields
/// the original mode, and, for a custom schedule, the original times.
pub proof fn lemma_schedule_round_trip(mode: i32, from: (u8, u8), to: (u8, u8), s: Schedule)
    requires
        from.0 <= 23,
        from.1 <= 59,
        to.0 <= 23,
        to.1 <= 59,
        0 <= mode <= 2,
        Schedule::spec_decode(mode, from, to) == Some(s),
    ensures
        s.mode_code_spec() == mode,
        mode == 2 ==> s.times_spec() == Some(
            (Time { hour: from.0, minute: from.1 }, Time { hour: to.0, minute: to.1 }),
        ),
{
}

/// Law: encoding a valid schedule and decoding the result yields the
/// schedule back, whatever time pair accompanies a non-custom mode.
pub proof fn lemma_schedule_encode_decode(s: Schedule, other: ((u8, u8), (u8, u8)))
    requires
        s.wf(),
        other.0.0 <= 23,
        other.0.1 <= 59,
        other.1.0 <= 23,
        other.1.1 <= 59,
    ensures
        s matches Schedule::Custom(a, b) ==> Schedule::spec_decode(
            2,
            (a.hour, a.minute),
            (b.hour, b.minute),
        ) == Some(s),
        !(s is Custom) ==> Schedule::spec_decode(s.mode_code_spec(), other.0, other.1) == Some(s),
{
}

} // verus!
