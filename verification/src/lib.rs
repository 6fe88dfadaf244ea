//! Control layer for two display-tinting features of a desktop OS: a
//! scheduled blue-light reduction feature and a manually toggled color
//! filter. The controllers translate user intents ("turn on", "set a
//! custom schedule", "set intensity to 40%") into ordered preference
//! writes against a backing store, preserving orthogonal state (changing
//! a schedule never flips the feature on or off) and forcing the value
//! transitions that a stateful store needs before it re-renders.

pub mod color_filters;
pub mod error;
pub mod filter_store;
pub mod filters;
pub mod night_light;
pub mod schedule;
pub mod shift_client;
pub mod status;
pub mod time;

pub use color_filters::ColorFilters;
pub use error::Error;
pub use filter_store::{FakeFilterStore, FilterCall, FilterState, FilterStore, HueRepr};
pub use filters::Filters;
pub use night_light::NightLight;
pub use schedule::Schedule;
pub use shift_client::{FakeShiftClient, ShiftCall, ShiftClient, ShiftState};
pub use status::Status;
pub use time::Time;
