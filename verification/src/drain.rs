//! How fast the battery drains.
//!
//! A rate is kept as the two whole numbers that it is made of. Its decimal figures are
//! worked out by the caller and come back as a [`DrainFigure`].

use crate::state::{held_sum, BatteryState, StateView};
use crate::style::{color, colored};
use vstd::prelude::*;

verus! {

/// A loss of capacity over a stretch of time: `percent * 60 / seconds` per minute.
#[derive(Debug, Clone, Copy, PartialEq, Eq, Structural)]
pub struct DrainRate {
    pub percent: u64,
    pub seconds: u64,
}

/// How a rate compares with the two thresholds of 0.20 and 0.60 percent per minute.
#[derive(Debug, Clone, Copy, PartialEq, Eq, Structural)]
pub enum DrainLevel {
    /// At most the lower threshold.
    Low,
    /// Above the lower threshold and at most the upper one.
    Moderate,
    /// Above the upper threshold.
    High,
}

/// The decimal figures of a rate, in percent per minute.
#[derive(Debug, Clone, PartialEq, Eq)]
pub struct DrainFigure {
    pub two_decimals: String,
    pub four_decimals: String,
    pub level: DrainLevel,
}

/// The figures of the two rates of a state.
#[derive(Debug, Clone, PartialEq, Eq)]
pub struct DrainFigures {
    pub active: Option<DrainFigure>,
    pub standby: Option<DrainFigure>,
}

// ---------------------------------------------------------------------------
// Rates
// ---------------------------------------------------------------------------

/// The rate since the battery was last charged. There is one while the battery has been
/// draining for some time and has lost capacity since then.
pub open spec fn active_drain(state: StateView) -> Option<DrainRate> {
    if !state.on_battery_only || state.discharge_seconds == 0 {
        None
    } else {
        match (state.last_charged_capacity, state.battery_capacity) {
            (Some(start), Some(current)) => if start <= current {
                None
            } else {
                Some(
                    DrainRate {
                        percent: (start - current) as u64,
                        seconds: state.discharge_seconds,
                    },
                )
            },
            _ => None,
        }
    }
}

/// The rate while asleep. There is one when both time and capacity went by asleep.
pub open spec fn standby_drain(state: StateView) -> Option<DrainRate> {
    if state.standby_seconds == 0 || state.standby_drop_percent == 0 {
        None
    } else {
        Some(DrainRate { percent: state.standby_drop_percent, seconds: state.standby_seconds })
    }
}

/// The time on battery, awake and asleep.
pub open spec fn battery_seconds(state: StateView) -> u64 {
    held_sum(state.counted_seconds, state.standby_seconds)
}

/// The rate since the battery was last charged.
pub fn drain_per_minute(state: &BatteryState) -> (rate: Option<DrainRate>)
    ensures
        rate == active_drain(state@),
{
    if !state.on_battery_only || state.discharge_seconds == 0 {
        return None;
    }
    match (state.last_charged_capacity, state.battery_capacity) {
        (Some(start), Some(current)) => if start <= current {
            None
        } else {
            Some(
                DrainRate { percent: (start - current) as u64, seconds: state.discharge_seconds },
            )
        },
        _ => None,
    }
}

/// The rate while asleep.
pub fn standby_drain_per_minute(state: &BatteryState) -> (rate: Option<DrainRate>)
    ensures
        rate == standby_drain(state@),
{
    if state.standby_seconds == 0 || state.standby_drop_percent == 0 {
        return None;
    }
    Some(DrainRate { percent: state.standby_drop_percent, seconds: state.standby_seconds })
}

/// The time on battery, awake and asleep.
pub fn total_battery_seconds(state: &BatteryState) -> (seconds: u64)
    ensures
        seconds == battery_seconds(state@),
{
    state.counted_seconds.saturating_add(state.standby_seconds)
}

// ---------------------------------------------------------------------------
// Figures
// ---------------------------------------------------------------------------

/// The figure that is shown: the one given, where the state has the rate at all.
pub open spec fn shown(rate: Option<DrainRate>, figure: Option<DrainFigure>) -> Option<
    DrainFigure,
> {
    match rate {
        Some(_) => figure,
        None => None,
    }
}

/// A figure with its unit, or the word for none.
pub open spec fn drain_text(figure: Option<DrainFigure>) -> Seq<char> {
    match figure {
        Some(f) => f.two_decimals@ + "%/min"@,
        None => "unknown"@,
    }
}

/// The colour of a figure: green, yellow or red, and grey for none.
pub open spec fn drain_code(figure: Option<DrainFigure>) -> Seq<char> {
    match figure {
        Some(f) => match f.level {
            DrainLevel::Low => "32"@,
            DrainLevel::Moderate => "33"@,
            DrainLevel::High => "31"@,
        },
        None => "90"@,
    }
}

/// A figure in JSON.
pub open spec fn drain_json(figure: Option<DrainFigure>) -> Seq<char> {
    match figure {
        Some(f) => f.four_decimals@,
        None => "null"@,
    }
}

/// An optional figure by value.
pub open spec fn figure_of(figure: Option<&DrainFigure>) -> Option<DrainFigure> {
    match figure {
        Some(f) => Some(*f),
        None => None,
    }
}

/// The figure that is shown for a rate.
pub fn shown_figure<'a>(rate: Option<DrainRate>, figure: &'a Option<DrainFigure>) -> (r: Option<
    &'a DrainFigure,
>)
    ensures
        figure_of(r) == shown(rate, *figure),
{
    match rate {
        Some(_) => figure.as_ref(),
        None => None,
    }
}

/// Writes a figure with its unit.
pub fn format_drain(figure: Option<&DrainFigure>) -> (r: String)
    ensures
        r@ == drain_text(figure_of(figure)),
{
    match figure {
        Some(f) => {
            let mut out = f.two_decimals.clone();
            out.append("%/min");
            out
        },
        None => "unknown".to_string(),
    }
}

/// Shows a figure in its colour.
pub fn color_drain(figure: Option<&DrainFigure>) -> (r: String)
    ensures
        r@ == colored(drain_text(figure_of(figure)), drain_code(figure_of(figure))),
{
    let text = format_drain(figure);
    match figure {
        Some(f) => match f.level {
            DrainLevel::Low => color(text.as_str(), "32"),
            DrainLevel::Moderate => color(text.as_str(), "33"),
            DrainLevel::High => color(text.as_str(), "31"),
        },
        None => color(text.as_str(), "90"),
    }
}

/// Writes a figure in JSON.
pub fn json_option_figure(figure: Option<&DrainFigure>) -> (r: String)
    ensures
        r@ == drain_json(figure_of(figure)),
{
    match figure {
        Some(f) => f.four_decimals.clone(),
        None => "null".to_string(),
    }
}

// ---------------------------------------------------------------------------
// Laws
// ---------------------------------------------------------------------------

/// A rate is never without time or without loss, so its figure is a positive number.
pub proof fn rates_are_positive(state: StateView)
    ensures
        active_drain(state) matches Some(rate) ==> rate.percent > 0 && rate.seconds > 0,
        standby_drain(state) matches Some(rate) ==> rate.percent > 0 && rate.seconds > 0,
{
}

/// Off battery no active rate is shown, whatever figure is given.
pub proof fn no_active_rate_off_battery(state: StateView, figure: Option<DrainFigure>)
    requires
        !state.on_battery_only,
    ensures
        shown(active_drain(state), figure) is None,
        drain_text(shown(active_drain(state), figure)) == "unknown"@,
        drain_json(shown(active_drain(state), figure)) == "null"@,
{
}

/// A state has an active rate exactly if it is on battery, has been discharging for some time,
/// and holds less than when it was last charged. The rate is what was lost since then over the
/// discharge time, whatever other times the state has counted.
pub proof fn active_rate_is_since_the_last_charge(state: StateView)
    ensures
        active_drain(state) is Some <==> {
            &&& state.on_battery_only
            &&& state.discharge_seconds > 0
            &&& state.last_charged_capacity is Some
            &&& state.battery_capacity is Some
            &&& state.last_charged_capacity->0 > state.battery_capacity->0
        },
        active_drain(state) matches Some(rate) ==> {
            &&& rate.seconds == state.discharge_seconds
            &&& rate.percent == state.last_charged_capacity->0 - state.battery_capacity->0
        },
{
}

/// A state has a standby rate exactly if both time and capacity went by asleep. The rate is the
/// capacity lost asleep over the time asleep, on battery or not.
pub proof fn standby_rate_is_that_of_sleep(state: StateView)
    ensures
        standby_drain(state) is Some <==> state.standby_seconds > 0 && state.standby_drop_percent
            > 0,
        standby_drain(state) matches Some(rate) ==> {
            &&& rate.seconds == state.standby_seconds
            &&& rate.percent == state.standby_drop_percent
        },
{
}

/// The time on battery is the time awake and the time asleep together, up to the greatest `u64`.
pub proof fn total_is_awake_and_asleep(state: StateView)
    ensures
        battery_seconds(state) == vstd::math::min(
            state.counted_seconds + state.standby_seconds,
            u64::MAX as int,
        ),
{
}

/// A figure is shown with its two decimals, and with four in JSON, exactly where there is a rate.
/// Its colour goes by its level.
pub proof fn figures_are_shown_for_rates(rate: DrainRate, figure: DrainFigure)
    ensures
        drain_text(shown(Some(rate), Some(figure))) == figure.two_decimals@ + "%/min"@,
        drain_json(shown(Some(rate), Some(figure))) == figure.four_decimals@,
        drain_text(shown(None, Some(figure))) == "unknown"@,
        drain_json(shown(None, Some(figure))) == "null"@,
        figure.level is Low ==> drain_code(Some(figure)) == "32"@,
        figure.level is Moderate ==> drain_code(Some(figure)) == "33"@,
        figure.level is High ==> drain_code(Some(figure)) == "31"@,
        drain_code(None) == "90"@,
{
}

} // verus!
