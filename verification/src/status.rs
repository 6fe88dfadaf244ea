//! The on/off state of a feature, independent of its schedule or
//! intensity.

use vstd::prelude::*;

verus! {

/// On/off state of a tinting feature. Total: there is no third state.
#[derive(Debug, Clone, Copy, PartialEq, Eq, Structural)]
pub enum Status {
    On,
    Off,
}

impl Status {
    /// The boolean the backing store holds for this status.
    pub open spec fn as_bool_spec(self) -> bool {
        match self {
            Status::On => true,
            Status::Off => false,
        }
    }

    /// The status stored as `enabled`: `On` maps to `true`, `Off` to `false`.
    #[verifier::when_used_as_spec(as_bool_spec)]
    pub fn as_bool(self) -> (r: bool)
        ensures
            r == self.as_bool_spec(),
    {
        match self {
            Status::On => true,
            Status::Off => false,
        }
    }

    /// The inverse of `as_bool`, total on booleans.
    pub open spec fn from_bool_spec(value: bool) -> Status {
        if value {
            Status::On
        } else {
            Status::Off
        }
    }

    /// The status a stored `enabled` boolean denotes.
    #[verifier::when_used_as_spec(from_bool_spec)]
    pub fn from_bool(value: bool) -> (r: Status)
        ensures
            r == Status::from_bool_spec(value),
    {
        if value {
            Status::On
        } else {
            Status::Off
        }
    }

    /// The opposite status.
    pub open spec fn toggled_spec(self) -> Status {
        match self {
            Status::On => Status::Off,
            Status::Off => Status::On,
        }
    }

    /// Flips `On` to `Off` and `Off` to `On`.
    #[verifier::when_used_as_spec(toggled_spec)]
    pub fn toggled(self) -> (r: Status)
        ensures
            r == self.toggled_spec(),
    {
        match self {
            Status::On => Status::Off,
            Status::Off => Status::On,
        }
    }

    /// The text a human reads for this status.
    pub open spec fn display_spec(self) -> Seq<char> {
        match self {
            Status::On => "On"@,
            Status::Off => "Off"@,
        }
    }

    /// Renders the status as "On" or "Off".
    pub fn display_string(&self) -> (r: String)
        ensures
            r@ == self.display_spec(),
    {
        match self {
            Status::On => String::from_str("On"),
            Status::Off => String::from_str("Off"),
        }
    }
}

/// Law: toggling a status twice returns the original value.
pub proof fn lemma_toggle_twice(s: Status)
    ensures
        s.toggled_spec().toggled_spec() == s,
{
}

/// Law: `from_bool` inverts `as_bool`, and the other way around.
pub proof fn lemma_bool_round_trip(s: Status, b: bool)
    ensures
        Status::from_bool_spec(s.as_bool_spec()) == s,
        Status::from_bool_spec(b).as_bool_spec() == b,
{
}

} // verus!
