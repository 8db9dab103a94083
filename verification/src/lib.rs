//! Battery run-time accounting.
//!
//! The library measures how long a machine runs on its battery alone. It reads the power
//! supplies of the system ([`supply`]), accumulates what they say from sample to sample
//! ([`state`], [`daemon`]), keeps the result in a text file ([`state_file`]) and shows it on a
//! terminal ([`sections`], [`cards`], [`json`], [`screen`]) or in a panel ([`applet`]).
//!
//! All of it works on plain values. Files, clocks, signals and the terminal belong to the
//! program around it.

pub mod applet;
pub mod args;
pub mod cards;
pub mod clock;
pub mod daemon;
pub mod drain;
pub mod json;
pub mod screen;
pub mod sections;
pub mod state;
pub mod state_file;
pub mod style;
pub mod supply;
pub mod text;

pub use state::{BatteryHistoryPoint, BatteryState, MAX_HISTORY_POINTS, RESET_COUNTERS_AT_CAPACITY};
pub use state_file::{format_battery_state, parse_battery_state, StateError};
pub use supply::{
    power_snapshot, power_snapshot_from_files, PowerSnapshot, PowerSupply, SnapshotError,
    SupplyFiles, SupplyKind,
};
