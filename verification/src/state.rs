//! The accumulated battery state and how it moves from one sample to the next.

use crate::clock::unix_now;
use crate::supply::{power_state_label, PowerSnapshot, SnapshotView};
use vstd::math::{max, min};
use vstd::prelude::*;

verus! {

/// How many history points a state keeps.
pub const MAX_HISTORY_POINTS: usize = 120;

/// The capacity, in percent, at which a battery on external power resets the counters.
pub const RESET_COUNTERS_AT_CAPACITY: u8 = 95;

/// The drop counters at one moment.
#[derive(Debug, Clone, Copy, PartialEq, Eq)]
pub struct BatteryHistoryPoint {
    pub updated_at_unix: u64,
    pub active_drop_percent: u64,
    pub standby_drop_percent: u64,
    pub battery_capacity: Option<u8>,
}

/// Everything that is accumulated about the battery.
#[derive(Debug, Clone, PartialEq, Eq)]
pub struct BatteryState {
    pub counted_seconds: u64,
    pub standby_seconds: u64,
    pub on_battery_only: bool,
    pub battery_capacity: Option<u8>,
    pub last_charged_capacity: Option<u8>,
    pub discharge_seconds: u64,
    pub active_drop_percent: u64,
    pub standby_drop_percent: u64,
    pub energy_now_microwatt_hours: Option<u64>,
    pub energy_empty_microwatt_hours: Option<u64>,
    pub power_now_microwatts: Option<u64>,
    pub short_average_power_microwatts: Option<u64>,
    pub long_average_power_microwatts: Option<u64>,
    pub history: Vec<BatteryHistoryPoint>,
    pub updated_at_unix: u64,
}

/// The model of [`BatteryState`].
#[verifier::ext_equal]
pub struct StateView {
    pub counted_seconds: u64,
    pub standby_seconds: u64,
    pub on_battery_only: bool,
    pub battery_capacity: Option<u8>,
    pub last_charged_capacity: Option<u8>,
    pub discharge_seconds: u64,
    pub active_drop_percent: u64,
    pub standby_drop_percent: u64,
    pub energy_now_microwatt_hours: Option<u64>,
    pub energy_empty_microwatt_hours: Option<u64>,
    pub power_now_microwatts: Option<u64>,
    pub short_average_power_microwatts: Option<u64>,
    pub long_average_power_microwatts: Option<u64>,
    pub history: Seq<BatteryHistoryPoint>,
    pub updated_at_unix: u64,
}

impl View for BatteryState {
    type V = StateView;

    open spec fn view(&self) -> StateView {
        StateView {
            counted_seconds: self.counted_seconds,
            standby_seconds: self.standby_seconds,
            on_battery_only: self.on_battery_only,
            battery_capacity: self.battery_capacity,
            last_charged_capacity: self.last_charged_capacity,
            discharge_seconds: self.discharge_seconds,
            active_drop_percent: self.active_drop_percent,
            standby_drop_percent: self.standby_drop_percent,
            energy_now_microwatt_hours: self.energy_now_microwatt_hours,
            energy_empty_microwatt_hours: self.energy_empty_microwatt_hours,
            power_now_microwatts: self.power_now_microwatts,
            short_average_power_microwatts: self.short_average_power_microwatts,
            long_average_power_microwatts: self.long_average_power_microwatts,
            history: self.history@,
            updated_at_unix: self.updated_at_unix,
        }
    }
}

/// The model of an optional earlier state.
pub open spec fn previous_view(previous: Option<&BatteryState>) -> Option<StateView> {
    match previous {
        Some(state) => Some(state@),
        None => None,
    }
}

// ---------------------------------------------------------------------------
// Arithmetic
// ---------------------------------------------------------------------------

/// The sum, held at the greatest `u64`.
pub open spec fn held_sum(a: u64, b: u64) -> u64 {
    if a + b > u64::MAX {
        u64::MAX
    } else {
        (a + b) as u64
    }
}

/// The weighted mean of the current and the previous value, rounded down: the current one
/// weighs `alpha_numerator / alpha_denominator`, the previous one what is left of one.
pub open spec fn weighted_mean(
    previous: u64,
    current: u64,
    alpha_numerator: u64,
    alpha_denominator: u64,
) -> u64 {
    let previous_weight = if alpha_numerator < alpha_denominator {
        alpha_denominator - alpha_numerator
    } else {
        0
    };
    let mean = (current * alpha_numerator + previous * previous_weight) / (
    alpha_denominator as int);
    if mean > u64::MAX {
        u64::MAX
    } else {
        mean as u64
    }
}

/// The weighted mean of the current and the previous value.
pub fn ewma_u64(
    previous: u64,
    current: u64,
    alpha_numerator: u64,
    alpha_denominator: u64,
) -> (mean: u64)
    requires
        alpha_denominator > 0,
    ensures
        mean == weighted_mean(previous, current, alpha_numerator, alpha_denominator),
{
    let previous_weight: u64 = alpha_denominator.saturating_sub(alpha_numerator);
    proof {
        assert(current * alpha_numerator <= u64::MAX * alpha_numerator) by (nonlinear_arith)
            requires
                0 <= current <= u64::MAX,
                0 <= alpha_numerator,
        ;
        assert(previous * previous_weight <= u64::MAX * previous_weight) by (nonlinear_arith)
            requires
                0 <= previous <= u64::MAX,
                0 <= previous_weight,
        ;
        assert(0 <= current * alpha_numerator) by (nonlinear_arith)
            requires
                0 <= current,
                0 <= alpha_numerator,
        ;
        assert(0 <= previous * previous_weight) by (nonlinear_arith)
            requires
                0 <= previous,
                0 <= previous_weight,
        ;
    }
    let weighted: u128 = (current as u128) * (alpha_numerator as u128) + (previous as u128) * (
    previous_weight as u128);
    let mean: u128 = weighted / (alpha_denominator as u128);
    if mean > u64::MAX as u128 {
        u64::MAX
    } else {
        mean as u64
    }
}

// ---------------------------------------------------------------------------
// Averages of the power draw
// ---------------------------------------------------------------------------

/// The averages that a first sample gives: its own power, while running on battery.
pub open spec fn first_averages(snapshot: SnapshotView) -> (Option<u64>, Option<u64>) {
    if snapshot.on_battery_only {
        (snapshot.battery_power_now_microwatts, snapshot.battery_power_now_microwatts)
    } else {
        (None, None)
    }
}

/// One average after one more sample: the mean with the earlier average where there is one.
pub open spec fn moved_average(earlier: Option<u64>, power: u64, percent: u64) -> Option<u64> {
    match earlier {
        Some(average) => Some(weighted_mean(average, power, percent, 100)),
        None => Some(power),
    }
}

/// The short and the long average after one more sample. There are none without a power
/// reading or off battery. They start over when the machine was not on battery before, and
/// otherwise the new reading weighs 30 percent in the short and 10 percent in the long one.
pub open spec fn next_averages(previous: Option<StateView>, snapshot: SnapshotView) -> (
    Option<u64>,
    Option<u64>,
) {
    match snapshot.battery_power_now_microwatts {
        None => (None, None),
        Some(power) => if power == 0 || !snapshot.on_battery_only {
            (None, None)
        } else {
            match previous {
                Some(state) if state.on_battery_only => (
                    moved_average(state.short_average_power_microwatts, power, 30),
                    moved_average(state.long_average_power_microwatts, power, 10),
                ),
                _ => (Some(power), Some(power)),
            }
        },
    }
}

/// The averages that a first sample gives.
pub fn initial_power_averages(snapshot: &PowerSnapshot) -> (r: (Option<u64>, Option<u64>))
    ensures
        r == first_averages(snapshot@),
{
    if snapshot.on_battery_only {
        (snapshot.battery_power_now_microwatts, snapshot.battery_power_now_microwatts)
    } else {
        (None, None)
    }
}

/// The averages after one more sample.
pub fn update_power_averages(previous: Option<&BatteryState>, snapshot: &PowerSnapshot) -> (r: (
    Option<u64>,
    Option<u64>,
))
    ensures
        r == next_averages(previous_view(previous), snapshot@),
{
    let power: u64 = match snapshot.battery_power_now_microwatts {
        Some(power) => power,
        None => {
            return (None, None);
        },
    };
    if power == 0 || !snapshot.on_battery_only {
        return (None, None);
    }
    match previous {
        Some(state) => {
            if !state.on_battery_only {
                return (Some(power), Some(power));
            }
            let short: u64 = match state.short_average_power_microwatts {
                Some(average) => ewma_u64(average, power, 30, 100),
                None => power,
            };
            let long: u64 = match state.long_average_power_microwatts {
                Some(average) => ewma_u64(average, power, 10, 100),
                None => power,
            };
            (Some(short), Some(long))
        },
        None => (Some(power), Some(power)),
    }
}

// ---------------------------------------------------------------------------
// History
// ---------------------------------------------------------------------------

/// The last `count` points of a history.
pub open spec fn latest(history: Seq<BatteryHistoryPoint>, count: nat) -> Seq<
    BatteryHistoryPoint,
> {
    if history.len() > count {
        history.skip(history.len() - count)
    } else {
        history
    }
}

/// Drops the oldest points of a history that is too long.
pub fn trim_history(history: &mut Vec<BatteryHistoryPoint>)
    ensures
        final(history)@ == latest(old(history)@, MAX_HISTORY_POINTS as nat),
{
    if history.len() > MAX_HISTORY_POINTS {
        let start: usize = history.len() - MAX_HISTORY_POINTS;
        let kept = history.split_off(start);
        assert(kept@ =~= old(history)@.skip(start as int));
        *history = kept;
    }
}

// ---------------------------------------------------------------------------
// Transitions
// ---------------------------------------------------------------------------

/// Whether a sample resets the counters: a battery off duty that is charged enough.
pub open spec fn resets_counters(snapshot: SnapshotView) -> bool {
    &&& !snapshot.on_battery_only
    &&& match snapshot.battery_capacity {
        Some(capacity) => capacity >= RESET_COUNTERS_AT_CAPACITY,
        None => false,
    }
}

/// The state that a first sample gives.
pub open spec fn initial_state(counted_seconds: u64, snapshot: SnapshotView, now: u64) -> StateView {
    StateView {
        counted_seconds,
        standby_seconds: 0,
        on_battery_only: snapshot.on_battery_only,
        battery_capacity: snapshot.battery_capacity,
        last_charged_capacity: if snapshot.on_battery_only {
            None
        } else {
            snapshot.battery_capacity
        },
        discharge_seconds: 0,
        active_drop_percent: 0,
        standby_drop_percent: 0,
        energy_now_microwatt_hours: snapshot.battery_energy_now_microwatt_hours,
        energy_empty_microwatt_hours: snapshot.battery_energy_empty_microwatt_hours,
        power_now_microwatts: snapshot.battery_power_now_microwatts,
        short_average_power_microwatts: first_averages(snapshot).0,
        long_average_power_microwatts: first_averages(snapshot).1,
        history: seq![
            BatteryHistoryPoint {
                updated_at_unix: now,
                active_drop_percent: 0,
                standby_drop_percent: 0,
                battery_capacity: snapshot.battery_capacity,
            },
        ],
        updated_at_unix: now,
    }
}

/// The capacity from which the battery has been draining. On battery it stays what it was
/// and is taken from the sample when there is none yet; off battery it follows the sample.
pub open spec fn next_charged_capacity(previous: Option<StateView>, snapshot: SnapshotView) -> Option<
    u8,
> {
    let earlier = match previous {
        Some(state) => state.last_charged_capacity,
        None => None,
    };
    if snapshot.on_battery_only {
        if earlier is Some {
            earlier
        } else {
            snapshot.battery_capacity
        }
    } else {
        if snapshot.battery_capacity is Some {
            snapshot.battery_capacity
        } else {
            earlier
        }
    }
}

/// Whether the machine was on battery at the earlier state.
pub open spec fn was_on_battery(previous: Option<StateView>) -> bool {
    match previous {
        Some(state) => state.on_battery_only,
        None => false,
    }
}

/// How long the battery has been draining without a break.
pub open spec fn next_discharge_seconds(
    previous: Option<StateView>,
    snapshot: SnapshotView,
    elapsed_seconds: u64,
) -> u64 {
    if !snapshot.on_battery_only {
        0
    } else {
        match previous {
            Some(state) if state.on_battery_only => held_sum(
                state.discharge_seconds,
                elapsed_seconds,
            ),
            _ => elapsed_seconds,
        }
    }
}

/// The time asleep that a sample adds: all of it where the machine was on battery both
/// before and after, and nothing otherwise.
pub open spec fn standby_increment(
    previous: Option<StateView>,
    snapshot: SnapshotView,
    standby_elapsed_seconds: u64,
) -> u64 {
    if snapshot.on_battery_only && was_on_battery(previous) {
        standby_elapsed_seconds
    } else {
        0
    }
}

/// The percentage that was lost since the earlier state, where both are known.
pub open spec fn capacity_drop(previous: Option<StateView>, snapshot: SnapshotView) -> u64 {
    match previous {
        Some(state) => match (state.battery_capacity, snapshot.battery_capacity) {
            (Some(before), Some(after)) => if before >= after {
                (before - after) as u64
            } else {
                0
            },
            _ => 0,
        },
        None => 0,
    }
}

/// The part of the loss that falls to time asleep.
pub open spec fn standby_drop_increment(
    previous: Option<StateView>,
    snapshot: SnapshotView,
    standby_elapsed_seconds: u64,
) -> u64 {
    if standby_increment(previous, snapshot, standby_elapsed_seconds) > 0 {
        capacity_drop(previous, snapshot)
    } else {
        0
    }
}

/// The part of the loss that falls to time awake on battery.
pub open spec fn active_drop_increment(
    previous: Option<StateView>,
    snapshot: SnapshotView,
    standby_elapsed_seconds: u64,
) -> u64 {
    if standby_increment(previous, snapshot, standby_elapsed_seconds) == 0
        && snapshot.on_battery_only {
        capacity_drop(previous, snapshot)
    } else {
        0
    }
}

/// The state that follows `previous` when a sample is taken.
pub open spec fn next_state(
    previous: Option<StateView>,
    counted_seconds: u64,
    snapshot: SnapshotView,
    elapsed_seconds: u64,
    standby_elapsed_seconds: u64,
    now: u64,
) -> StateView {
    if resets_counters(snapshot) {
        initial_state(0, snapshot, now)
    } else {
        let (standby_before, active_drop_before, standby_drop_before, history_before) = match previous {
            Some(state) => (
                state.standby_seconds,
                state.active_drop_percent,
                state.standby_drop_percent,
                state.history,
            ),
            None => (0, 0, 0, Seq::empty()),
        };
        let active_drop_percent = held_sum(
            active_drop_before,
            active_drop_increment(previous, snapshot, standby_elapsed_seconds),
        );
        let standby_drop_percent = held_sum(
            standby_drop_before,
            standby_drop_increment(previous, snapshot, standby_elapsed_seconds),
        );
        let point = BatteryHistoryPoint {
            updated_at_unix: now,
            active_drop_percent,
            standby_drop_percent,
            battery_capacity: snapshot.battery_capacity,
        };
        StateView {
            counted_seconds,
            standby_seconds: held_sum(
                standby_before,
                standby_increment(previous, snapshot, standby_elapsed_seconds),
            ),
            on_battery_only: snapshot.on_battery_only,
            battery_capacity: snapshot.battery_capacity,
            last_charged_capacity: next_charged_capacity(previous, snapshot),
            discharge_seconds: next_discharge_seconds(previous, snapshot, elapsed_seconds),
            active_drop_percent,
            standby_drop_percent,
            energy_now_microwatt_hours: snapshot.battery_energy_now_microwatt_hours,
            energy_empty_microwatt_hours: snapshot.battery_energy_empty_microwatt_hours,
            power_now_microwatts: snapshot.battery_power_now_microwatts,
            short_average_power_microwatts: next_averages(previous, snapshot).0,
            long_average_power_microwatts: next_averages(previous, snapshot).1,
            history: latest(history_before.push(point), MAX_HISTORY_POINTS as nat),
            updated_at_unix: now,
        }
    }
}

/// Whether a sample resets the counters.
pub fn should_reset_counters(snapshot: &PowerSnapshot) -> (r: bool)
    ensures
        r == resets_counters(snapshot@),
{
    !snapshot.on_battery_only && match snapshot.battery_capacity {
        Some(capacity) => capacity >= RESET_COUNTERS_AT_CAPACITY,
        None => false,
    }
}

impl BatteryState {
    /// The state that a first sample gives, stamped with the current time.
    pub fn new(counted_seconds: u64, snapshot: &PowerSnapshot) -> (state: Self)
        ensures
            state@ == initial_state(counted_seconds, snapshot@, state.updated_at_unix),
    {
        Self::new_at(counted_seconds, snapshot, unix_now())
    }

    /// The state that a first sample gives at the time `now`.
    pub fn new_at(counted_seconds: u64, snapshot: &PowerSnapshot, now: u64) -> (state: Self)
        ensures
            state@ == initial_state(counted_seconds, snapshot@, now),
    {
        let battery_capacity = snapshot.battery_capacity;
        let (short_average, long_average) = initial_power_averages(snapshot);
        let mut history: Vec<BatteryHistoryPoint> = Vec::new();
        history.push(
            BatteryHistoryPoint {
                updated_at_unix: now,
                active_drop_percent: 0,
                standby_drop_percent: 0,
                battery_capacity,
            },
        );
        let state = BatteryState {
            counted_seconds,
            standby_seconds: 0,
            on_battery_only: snapshot.on_battery_only,
            battery_capacity,
            last_charged_capacity: if snapshot.on_battery_only {
                None
            } else {
                battery_capacity
            },
            discharge_seconds: 0,
            active_drop_percent: 0,
            standby_drop_percent: 0,
            energy_now_microwatt_hours: snapshot.battery_energy_now_microwatt_hours,
            energy_empty_microwatt_hours: snapshot.battery_energy_empty_microwatt_hours,
            power_now_microwatts: snapshot.battery_power_now_microwatts,
            short_average_power_microwatts: short_average,
            long_average_power_microwatts: long_average,
            history,
            updated_at_unix: now,
        };
        assert(state@.history =~= initial_state(counted_seconds, snapshot@, now).history);
        state
    }

    /// The state that follows `previous`, stamped with the current time.
    pub fn next(
        previous: Option<&Self>,
        counted_seconds: u64,
        snapshot: &PowerSnapshot,
        elapsed_seconds: u64,
        standby_elapsed_seconds: u64,
    ) -> (state: Self)
        ensures
            state@ == next_state(
                previous_view(previous),
                counted_seconds,
                snapshot@,
                elapsed_seconds,
                standby_elapsed_seconds,
                state.updated_at_unix,
            ),
    {
        Self::next_at(
            previous,
            counted_seconds,
            snapshot,
            elapsed_seconds,
            standby_elapsed_seconds,
            unix_now(),
        )
    }

    /// The state that follows `previous` at the time `now`.
    pub fn next_at(
        previous: Option<&Self>,
        counted_seconds: u64,
        snapshot: &PowerSnapshot,
        elapsed_seconds: u64,
        standby_elapsed_seconds: u64,
        now: u64,
    ) -> (state: Self)
        ensures
            state@ == next_state(
                previous_view(previous),
                counted_seconds,
                snapshot@,
                elapsed_seconds,
                standby_elapsed_seconds,
                now,
            ),
    {
        if should_reset_counters(snapshot) {
            return Self::new_at(0, snapshot, now);
        }
        let was_on_battery = match previous {
            Some(state) => state.on_battery_only,
            None => false,
        };
        let earlier_charged: Option<u8> = match previous {
            Some(state) => state.last_charged_capacity,
            None => None,
        };
        let last_charged_capacity = if snapshot.on_battery_only {
            if earlier_charged.is_some() {
                earlier_charged
            } else {
                snapshot.battery_capacity
            }
        } else {
            if snapshot.battery_capacity.is_some() {
                snapshot.battery_capacity
            } else {
                earlier_charged
            }
        };
        let discharge_seconds: u64 = if snapshot.on_battery_only {
            match previous {
                Some(state) => if state.on_battery_only {
                    state.discharge_seconds.saturating_add(elapsed_seconds)
                } else {
                    elapsed_seconds
                },
                None => elapsed_seconds,
            }
        } else {
            0
        };
        let standby_added: u64 = if snapshot.on_battery_only && was_on_battery {
            standby_elapsed_seconds
        } else {
            0
        };
        let drop: u64 = match previous {
            Some(state) => match (state.battery_capacity, snapshot.battery_capacity) {
                (Some(before), Some(after)) => if before >= after {
                    (before - after) as u64
                } else {
                    0
                },
                _ => 0,
            },
            None => 0,
        };
        let standby_drop: u64 = if standby_added > 0 {
            drop
        } else {
            0
        };
        let active_drop: u64 = if standby_added == 0 && snapshot.on_battery_only {
            drop
        } else {
            0
        };
        let (standby_before, active_drop_before, standby_drop_before): (u64, u64, u64) =
            match previous {
            Some(state) => (
                state.standby_seconds,
                state.active_drop_percent,
                state.standby_drop_percent,
            ),
            None => (0, 0, 0),
        };
        let active_drop_percent: u64 = active_drop_before.saturating_add(active_drop);
        let standby_drop_percent: u64 = standby_drop_before.saturating_add(standby_drop);
        let (short_average, long_average) = update_power_averages(previous, snapshot);
        let mut history: Vec<BatteryHistoryPoint> = match previous {
            Some(state) => state.history.clone(),
            None => Vec::new(),
        };
        proof {
            match previous {
                Some(state) => {
                    assert(history@ =~= state.history@);
                },
                None => {},
            }
        }
        history.push(
            BatteryHistoryPoint {
                updated_at_unix: now,
                active_drop_percent,
                standby_drop_percent,
                battery_capacity: snapshot.battery_capacity,
            },
        );
        trim_history(&mut history);
        BatteryState {
            counted_seconds,
            standby_seconds: standby_before.saturating_add(standby_added),
            on_battery_only: snapshot.on_battery_only,
            battery_capacity: snapshot.battery_capacity,
            last_charged_capacity,
            discharge_seconds,
            active_drop_percent,
            standby_drop_percent,
            energy_now_microwatt_hours: snapshot.battery_energy_now_microwatt_hours,
            energy_empty_microwatt_hours: snapshot.battery_energy_empty_microwatt_hours,
            power_now_microwatts: snapshot.battery_power_now_microwatts,
            short_average_power_microwatts: short_average,
            long_average_power_microwatts: long_average,
            history,
            updated_at_unix: now,
        }
    }

    /// The label of the power state.
    pub fn state_label(&self) -> (label: &'static str)
        ensures
            label@ == power_state_label(self.on_battery_only),
    {
        if self.on_battery_only {
            "battery"
        } else {
            "external-or-idle"
        }
    }
}

// ---------------------------------------------------------------------------
// Laws
// ---------------------------------------------------------------------------

/// A weighted mean lies between the two values that it is made of.
pub proof fn mean_lies_between(
    previous: u64,
    current: u64,
    alpha_numerator: u64,
    alpha_denominator: u64,
)
    requires
        0 < alpha_denominator,
        alpha_numerator <= alpha_denominator,
    ensures
        previous <= current ==> previous <= weighted_mean(
            previous,
            current,
            alpha_numerator,
            alpha_denominator,
        ) <= current,
        current <= previous ==> current <= weighted_mean(
            previous,
            current,
            alpha_numerator,
            alpha_denominator,
        ) <= previous,
{
    let n = alpha_numerator as int;
    let d = alpha_denominator as int;
    let c = current as int;
    let p = previous as int;
    let low = if p <= c { p } else { c };
    let high = if p <= c { c } else { p };
    let weighted = c * n + p * (d - n);
    assert(low * d <= weighted <= high * d) by (nonlinear_arith)
        requires
            weighted == c * n + p * (d - n),
            low <= c <= high,
            low <= p <= high,
            0 <= n <= d,
    ;
    assert(low <= weighted / d <= high) by (nonlinear_arith)
        requires
            low * d <= weighted <= high * d,
            0 < d,
    ;
}

/// However the power moves, an average that is carried on stays between what it was and the
/// new reading.
pub proof fn averages_follow_the_power(previous: StateView, snapshot: SnapshotView)
    requires
        previous.on_battery_only,
        previous.short_average_power_microwatts is Some,
        previous.long_average_power_microwatts is Some,
        next_averages(Some(previous), snapshot).0 is Some,
    ensures
        ({
            let power = snapshot.battery_power_now_microwatts->0;
            let (short, long) = next_averages(Some(previous), snapshot);
            &&& long is Some
            &&& between(previous.short_average_power_microwatts->0, short->0, power)
            &&& between(previous.long_average_power_microwatts->0, long->0, power)
        }),
{
    let power = snapshot.battery_power_now_microwatts->0;
    mean_lies_between(previous.short_average_power_microwatts->0, power, 30, 100);
    mean_lies_between(previous.long_average_power_microwatts->0, power, 10, 100);
}

/// Whether `x` lies between `a` and `b`, in either order.
pub open spec fn between(a: u64, x: u64, b: u64) -> bool {
    a <= x <= b || b <= x <= a
}

/// A state never keeps more than the greatest number of history points, whatever the state
/// before it kept, and its last point always repeats its own counters.
pub proof fn history_is_bounded_and_current(
    previous: Option<StateView>,
    counted_seconds: u64,
    snapshot: SnapshotView,
    elapsed_seconds: u64,
    standby_elapsed_seconds: u64,
    now: u64,
)
    ensures
        ({
            let state = next_state(
                previous,
                counted_seconds,
                snapshot,
                elapsed_seconds,
                standby_elapsed_seconds,
                now,
            );
            &&& 1 <= state.history.len() <= MAX_HISTORY_POINTS
            &&& ends_with_its_counters(state)
        }),
        initial_state(counted_seconds, snapshot, now).history.len() == 1,
        ends_with_its_counters(initial_state(counted_seconds, snapshot, now)),
{
}

/// Whether the last history point of a state repeats the counters of the state.
pub open spec fn ends_with_its_counters(state: StateView) -> bool {
    &&& state.history.len() > 0
    &&& state.history.last() == BatteryHistoryPoint {
        updated_at_unix: state.updated_at_unix,
        active_drop_percent: state.active_drop_percent,
        standby_drop_percent: state.standby_drop_percent,
        battery_capacity: state.battery_capacity,
    }
}

/// Without a reset the history grows by one point at its end and loses only its oldest
/// points.
pub proof fn history_keeps_the_latest_points(
    previous: StateView,
    counted_seconds: u64,
    snapshot: SnapshotView,
    elapsed_seconds: u64,
    standby_elapsed_seconds: u64,
    now: u64,
)
    requires
        !resets_counters(snapshot),
    ensures
        ({
            let state = next_state(
                Some(previous),
                counted_seconds,
                snapshot,
                elapsed_seconds,
                standby_elapsed_seconds,
                now,
            );
            state.history.drop_last() == latest(previous.history, (MAX_HISTORY_POINTS - 1) as nat)
        }),
{
    let state = next_state(
        Some(previous),
        counted_seconds,
        snapshot,
        elapsed_seconds,
        standby_elapsed_seconds,
        now,
    );
    assert(state.history.drop_last() =~= latest(
        previous.history,
        (MAX_HISTORY_POINTS - 1) as nat,
    ));
}

/// A reset forgets everything: the state after it depends on the sample and the time alone,
/// and its counters are zero.
pub proof fn reset_forgets_the_past(
    previous: Option<StateView>,
    counted_seconds: u64,
    snapshot: SnapshotView,
    elapsed_seconds: u64,
    standby_elapsed_seconds: u64,
    now: u64,
)
    requires
        resets_counters(snapshot),
    ensures
        ({
            let state = next_state(
                previous,
                counted_seconds,
                snapshot,
                elapsed_seconds,
                standby_elapsed_seconds,
                now,
            );
            &&& state == initial_state(0, snapshot, now)
            &&& state.counted_seconds == 0
            &&& state.standby_seconds == 0
            &&& state.discharge_seconds == 0
            &&& state.active_drop_percent == 0
            &&& state.standby_drop_percent == 0
            &&& state.history.len() == 1
        }),
{
}

/// While the machine runs on battery nothing resets the counters, at whatever capacity.
pub proof fn running_on_battery_never_resets(snapshot: SnapshotView)
    requires
        snapshot.on_battery_only,
    ensures
        !resets_counters(snapshot),
{
}

/// Without a reset no accumulated counter falls.
pub proof fn counters_never_fall(
    previous: StateView,
    counted_seconds: u64,
    snapshot: SnapshotView,
    elapsed_seconds: u64,
    standby_elapsed_seconds: u64,
    now: u64,
)
    requires
        !resets_counters(snapshot),
    ensures
        ({
            let state = next_state(
                Some(previous),
                counted_seconds,
                snapshot,
                elapsed_seconds,
                standby_elapsed_seconds,
                now,
            );
            &&& state.standby_seconds >= previous.standby_seconds
            &&& state.active_drop_percent >= previous.active_drop_percent
            &&& state.standby_drop_percent >= previous.standby_drop_percent
        }),
{
}

/// A loss of capacity is counted exactly once on battery, either as active or as standby,
/// and not at all off battery.
pub proof fn loss_is_counted_once(
    previous: Option<StateView>,
    snapshot: SnapshotView,
    standby_elapsed_seconds: u64,
)
    ensures
        ({
            let active = active_drop_increment(previous, snapshot, standby_elapsed_seconds);
            let standby = standby_drop_increment(previous, snapshot, standby_elapsed_seconds);
            &&& active == 0 || standby == 0
            &&& active + standby == (if snapshot.on_battery_only {
                capacity_drop(previous, snapshot) as int
            } else {
                0
            })
        }),
{
}

/// Off battery nothing is accumulated: the counters stay, the discharge time is zero and
/// there are no averages.
pub proof fn nothing_accumulates_off_battery(
    previous: StateView,
    counted_seconds: u64,
    snapshot: SnapshotView,
    elapsed_seconds: u64,
    standby_elapsed_seconds: u64,
    now: u64,
)
    requires
        !snapshot.on_battery_only,
        !resets_counters(snapshot),
    ensures
        ({
            let state = next_state(
                Some(previous),
                counted_seconds,
                snapshot,
                elapsed_seconds,
                standby_elapsed_seconds,
                now,
            );
            &&& state.standby_seconds == previous.standby_seconds
            &&& state.active_drop_percent == previous.active_drop_percent
            &&& state.standby_drop_percent == previous.standby_drop_percent
            &&& state.discharge_seconds == 0
            &&& state.short_average_power_microwatts is None
            &&& state.long_average_power_microwatts is None
        }),
{
}

/// While the machine stays on battery, the capacity from which it has been draining stays
/// the one of the moment it left external power.
pub proof fn charged_capacity_is_kept_on_battery(
    previous: StateView,
    counted_seconds: u64,
    snapshot: SnapshotView,
    elapsed_seconds: u64,
    standby_elapsed_seconds: u64,
    now: u64,
)
    requires
        snapshot.on_battery_only,
        previous.last_charged_capacity is Some,
    ensures
        next_state(
            Some(previous),
            counted_seconds,
            snapshot,
            elapsed_seconds,
            standby_elapsed_seconds,
            now,
        ).last_charged_capacity == previous.last_charged_capacity,
{
}

/// A battery off duty that is charged to 95 percent or more starts over, whatever came
/// before: every counter is zero, one history point is left, and the battery counts as last
/// charged to what it holds.
pub proof fn charged_battery_starts_over(
    previous: Option<StateView>,
    counted_seconds: u64,
    snapshot: SnapshotView,
    elapsed_seconds: u64,
    standby_elapsed_seconds: u64,
    now: u64,
)
    requires
        !snapshot.on_battery_only,
        snapshot.battery_capacity is Some,
        snapshot.battery_capacity->0 >= 95,
    ensures
        ({
            let state = next_state(
                previous,
                counted_seconds,
                snapshot,
                elapsed_seconds,
                standby_elapsed_seconds,
                now,
            );
            &&& state.counted_seconds == 0
            &&& state.standby_seconds == 0
            &&& state.discharge_seconds == 0
            &&& state.active_drop_percent == 0
            &&& state.standby_drop_percent == 0
            &&& state.last_charged_capacity == snapshot.battery_capacity
            &&& state.short_average_power_microwatts is None
            &&& state.long_average_power_microwatts is None
            &&& state.history.len() == 1
            &&& state.history[0] == BatteryHistoryPoint {
                updated_at_unix: now,
                active_drop_percent: 0,
                standby_drop_percent: 0,
                battery_capacity: snapshot.battery_capacity,
            }
        }),
{
}

/// On battery, below 95 percent and with an unknown capacity nothing starts over: the time
/// given is the time counted, and no other counter falls.
pub proof fn other_samples_keep_the_counters(
    previous: Option<StateView>,
    counted_seconds: u64,
    snapshot: SnapshotView,
    elapsed_seconds: u64,
    standby_elapsed_seconds: u64,
    now: u64,
)
    requires
        snapshot.on_battery_only || snapshot.battery_capacity is None
            || snapshot.battery_capacity->0 < 95,
    ensures
        ({
            let state = next_state(
                previous,
                counted_seconds,
                snapshot,
                elapsed_seconds,
                standby_elapsed_seconds,
                now,
            );
            &&& state.counted_seconds == counted_seconds
            &&& previous matches Some(before) ==> {
                &&& state.standby_seconds >= before.standby_seconds
                &&& state.active_drop_percent >= before.active_drop_percent
                &&& state.standby_drop_percent >= before.standby_drop_percent
            }
            &&& previous is None ==> {
                &&& state.standby_seconds == 0
                &&& state.active_drop_percent == 0
                &&& state.standby_drop_percent == 0
            }
        }),
{
}

/// Time asleep is time on battery only where the machine was on battery both before and
/// after it. Then all of it is added, up to the greatest `u64`. Where it was off battery at
/// either end, or nothing is known of before, neither the time asleep nor the loss asleep
/// moves.
pub proof fn sleep_counts_between_samples_on_battery(
    previous: Option<StateView>,
    counted_seconds: u64,
    snapshot: SnapshotView,
    elapsed_seconds: u64,
    standby_elapsed_seconds: u64,
    now: u64,
)
    requires
        snapshot.on_battery_only || snapshot.battery_capacity is None
            || snapshot.battery_capacity->0 < 95,
    ensures
        ({
            let state = next_state(
                previous,
                counted_seconds,
                snapshot,
                elapsed_seconds,
                standby_elapsed_seconds,
                now,
            );
            &&& previous is None ==> state.standby_seconds == 0 && state.standby_drop_percent == 0
            &&& previous matches Some(before) ==> {
                &&& before.on_battery_only && snapshot.on_battery_only ==> state.standby_seconds
                    == min(before.standby_seconds + standby_elapsed_seconds, u64::MAX as int)
                &&& !before.on_battery_only || !snapshot.on_battery_only ==> {
                    &&& state.standby_seconds == before.standby_seconds
                    &&& state.standby_drop_percent == before.standby_drop_percent
                }
            }
        }),
{
}

/// What the battery lost between two samples, where both say what it holds, is counted on
/// one side only: as lost asleep where time asleep on battery went by, and as lost awake
/// otherwise. Off battery, and where the battery gained or a capacity is unknown, neither
/// side moves.
pub proof fn losses_fall_to_sleep_or_to_running(
    previous: Option<StateView>,
    counted_seconds: u64,
    snapshot: SnapshotView,
    elapsed_seconds: u64,
    standby_elapsed_seconds: u64,
    now: u64,
)
    requires
        snapshot.on_battery_only || snapshot.battery_capacity is None
            || snapshot.battery_capacity->0 < 95,
        previous is Some,
    ensures
        ({
            let state = next_state(
                previous,
                counted_seconds,
                snapshot,
                elapsed_seconds,
                standby_elapsed_seconds,
                now,
            );
            let before = previous->0;
            let lost = match (before.battery_capacity, snapshot.battery_capacity) {
                (Some(then), Some(current)) => max(0, then - current),
                _ => 0,
            };
            &&& !snapshot.on_battery_only || lost == 0 ==> {
                &&& state.active_drop_percent == before.active_drop_percent
                &&& state.standby_drop_percent == before.standby_drop_percent
            }
            &&& snapshot.on_battery_only && before.on_battery_only && standby_elapsed_seconds > 0
                ==> {
                &&& state.active_drop_percent == before.active_drop_percent
                &&& state.standby_drop_percent == min(
                    before.standby_drop_percent + lost,
                    u64::MAX as int,
                )
            }
            &&& snapshot.on_battery_only && (!before.on_battery_only || standby_elapsed_seconds
                == 0) ==> {
                &&& state.active_drop_percent == min(
                    before.active_drop_percent + lost,
                    u64::MAX as int,
                )
                &&& state.standby_drop_percent == before.standby_drop_percent
            }
        }),
{
}

/// The discharge time runs on while the machine stays on battery, starts with the elapsed
/// time when it goes on battery, and is zero off battery. The time asleep is no part of it.
pub proof fn discharge_time_runs_on_battery(
    previous: Option<StateView>,
    counted_seconds: u64,
    snapshot: SnapshotView,
    elapsed_seconds: u64,
    standby_elapsed_seconds: u64,
    now: u64,
)
    ensures
        ({
            let state = next_state(
                previous,
                counted_seconds,
                snapshot,
                elapsed_seconds,
                standby_elapsed_seconds,
                now,
            );
            &&& !snapshot.on_battery_only ==> state.discharge_seconds == 0
            &&& snapshot.on_battery_only ==> match previous {
                Some(before) => state.discharge_seconds == (if before.on_battery_only {
                    min(before.discharge_seconds + elapsed_seconds, u64::MAX as int)
                } else {
                    elapsed_seconds as int
                }),
                None => state.discharge_seconds == elapsed_seconds,
            }
        }),
{
}

/// Off battery the last charged capacity is what the battery holds, above or below what it
/// was, and it stays where that is unknown. On battery it stays what it was, and is taken from
/// the sample only where there was none.
pub proof fn charging_moves_the_charged_capacity(
    previous: Option<StateView>,
    counted_seconds: u64,
    snapshot: SnapshotView,
    elapsed_seconds: u64,
    standby_elapsed_seconds: u64,
    now: u64,
)
    ensures
        ({
            let state = next_state(
                previous,
                counted_seconds,
                snapshot,
                elapsed_seconds,
                standby_elapsed_seconds,
                now,
            );
            &&& !snapshot.on_battery_only && snapshot.battery_capacity is Some
                ==> state.last_charged_capacity == snapshot.battery_capacity
            &&& !snapshot.on_battery_only && snapshot.battery_capacity is None ==> match previous {
                Some(before) => state.last_charged_capacity == before.last_charged_capacity,
                None => state.last_charged_capacity is None,
            }
            &&& snapshot.on_battery_only ==> match previous {
                Some(before) => state.last_charged_capacity == (
                if before.last_charged_capacity is Some {
                    before.last_charged_capacity
                } else {
                    snapshot.battery_capacity
                }),
                None => state.last_charged_capacity == snapshot.battery_capacity,
            }
        }),
{
}

/// A state repeats what its sample says and is stamped with the time of the sample, whether
/// or not it starts over.
pub proof fn states_repeat_their_sample(
    previous: Option<StateView>,
    counted_seconds: u64,
    snapshot: SnapshotView,
    elapsed_seconds: u64,
    standby_elapsed_seconds: u64,
    now: u64,
)
    ensures
        ({
            let state = next_state(
                previous,
                counted_seconds,
                snapshot,
                elapsed_seconds,
                standby_elapsed_seconds,
                now,
            );
            &&& state.on_battery_only == snapshot.on_battery_only
            &&& state.battery_capacity == snapshot.battery_capacity
            &&& state.energy_now_microwatt_hours == snapshot.battery_energy_now_microwatt_hours
            &&& state.energy_empty_microwatt_hours == snapshot.battery_energy_empty_microwatt_hours
            &&& state.power_now_microwatts == snapshot.battery_power_now_microwatts
            &&& state.updated_at_unix == now
        }),
{
}

/// On battery with a power reading there are two averages. Where the machine was on battery
/// before and had an average, the reading weighs 30 hundredths in the short one and 10 in the
/// long one, rounded down; otherwise the average is the reading itself. Off battery, and
/// without a reading above zero, there is none.
pub proof fn averages_weigh_the_reading(
    previous: Option<StateView>,
    counted_seconds: u64,
    snapshot: SnapshotView,
    elapsed_seconds: u64,
    standby_elapsed_seconds: u64,
    now: u64,
)
    ensures
        ({
            let state = next_state(
                previous,
                counted_seconds,
                snapshot,
                elapsed_seconds,
                standby_elapsed_seconds,
                now,
            );
            let power = snapshot.battery_power_now_microwatts;
            &&& !snapshot.on_battery_only || power is None || power->0 == 0 ==> {
                &&& state.short_average_power_microwatts is None
                &&& state.long_average_power_microwatts is None
            }
            &&& snapshot.on_battery_only && power is Some && power->0 > 0 ==> {
                &&& state.short_average_power_microwatts is Some
                &&& state.long_average_power_microwatts is Some
                &&& match previous {
                    Some(before) if before.on_battery_only => {
                        &&& match before.short_average_power_microwatts {
                            Some(average) => 0 <= 30 * power->0 + 70 * average - 100
                                * state.short_average_power_microwatts->0 < 100,
                            None => state.short_average_power_microwatts == power,
                        }
                        &&& match before.long_average_power_microwatts {
                            Some(average) => 0 <= 10 * power->0 + 90 * average - 100
                                * state.long_average_power_microwatts->0 < 100,
                            None => state.long_average_power_microwatts == power,
                        }
                    },
                    _ => {
                        &&& state.short_average_power_microwatts == power
                        &&& state.long_average_power_microwatts == power
                    },
                }
            }
        }),
{
    if let (Some(before), Some(power)) = (previous, snapshot.battery_power_now_microwatts) {
        if let Some(average) = before.short_average_power_microwatts {
            mean_is_rounded_down(average, power, 30, 100);
            assert(0 <= 30 * power + 70 * average - 100 * weighted_mean(average, power, 30, 100)
                < 100);
        }
        if let Some(average) = before.long_average_power_microwatts {
            mean_is_rounded_down(average, power, 10, 100);
            assert(0 <= 10 * power + 90 * average - 100 * weighted_mean(average, power, 10, 100)
                < 100);
        }
    }
}

/// Without starting over, the history is the one before with one point more at its end, which
/// repeats the counters of the state. It keeps at most 120 points, the latest ones, in their
/// order.
pub proof fn history_grows_at_its_end(
    previous: Option<StateView>,
    counted_seconds: u64,
    snapshot: SnapshotView,
    elapsed_seconds: u64,
    standby_elapsed_seconds: u64,
    now: u64,
)
    requires
        snapshot.on_battery_only || snapshot.battery_capacity is None
            || snapshot.battery_capacity->0 < 95,
    ensures
        ({
            let state = next_state(
                previous,
                counted_seconds,
                snapshot,
                elapsed_seconds,
                standby_elapsed_seconds,
                now,
            );
            let points = match previous {
                Some(before) => before.history,
                None => Seq::empty(),
            };
            let count = min(points.len() as int + 1, 120);
            &&& state.history.len() == count
            &&& state.history[count - 1] == BatteryHistoryPoint {
                updated_at_unix: now,
                active_drop_percent: state.active_drop_percent,
                standby_drop_percent: state.standby_drop_percent,
                battery_capacity: snapshot.battery_capacity,
            }
            &&& forall|i: int|
                0 <= i < count - 1 ==> #[trigger] state.history[i] == points[points.len() + 1 - count
                    + i]
        }),
{
}

/// A first sample counts the time that it is given and nothing else. Off battery the battery
/// counts as last charged to what it holds; on battery that is not known yet, and the power
/// reading, if there is one, is its own average.
pub proof fn first_sample_starts_from_nothing(
    counted_seconds: u64,
    snapshot: SnapshotView,
    now: u64,
)
    ensures
        ({
            let state = initial_state(counted_seconds, snapshot, now);
            &&& state.counted_seconds == counted_seconds
            &&& state.standby_seconds == 0
            &&& state.discharge_seconds == 0
            &&& state.active_drop_percent == 0
            &&& state.standby_drop_percent == 0
            &&& state.on_battery_only == snapshot.on_battery_only
            &&& state.battery_capacity == snapshot.battery_capacity
            &&& state.energy_now_microwatt_hours == snapshot.battery_energy_now_microwatt_hours
            &&& state.energy_empty_microwatt_hours == snapshot.battery_energy_empty_microwatt_hours
            &&& state.power_now_microwatts == snapshot.battery_power_now_microwatts
            &&& state.updated_at_unix == now
            &&& snapshot.on_battery_only ==> {
                &&& state.last_charged_capacity is None
                &&& state.short_average_power_microwatts == snapshot.battery_power_now_microwatts
                &&& state.long_average_power_microwatts == snapshot.battery_power_now_microwatts
            }
            &&& !snapshot.on_battery_only ==> {
                &&& state.last_charged_capacity == snapshot.battery_capacity
                &&& state.short_average_power_microwatts is None
                &&& state.long_average_power_microwatts is None
            }
            &&& state.history.len() == 1
            &&& state.history[0] == BatteryHistoryPoint {
                updated_at_unix: now,
                active_drop_percent: 0,
                standby_drop_percent: 0,
                battery_capacity: snapshot.battery_capacity,
            }
        }),
{
}

/// A weighted mean is the greatest number whose share is not above the weighted sum: the
/// current value weighs the numerator, and the previous one what is left of the denominator.
pub proof fn mean_is_rounded_down(
    previous: u64,
    current: u64,
    alpha_numerator: u64,
    alpha_denominator: u64,
)
    requires
        0 < alpha_denominator,
        alpha_numerator <= alpha_denominator,
    ensures
        0 <= current * alpha_numerator + previous * (alpha_denominator - alpha_numerator)
            - alpha_denominator * weighted_mean(
            previous,
            current,
            alpha_numerator,
            alpha_denominator,
        ) < alpha_denominator,
{
    mean_lies_between(previous, current, alpha_numerator, alpha_denominator);
    let d = alpha_denominator as int;
    let n = alpha_numerator as int;
    let sum = current * alpha_numerator + previous * (d - n);
    assert(sum == current * alpha_numerator + previous * (if n < d { d - n } else { 0 }));
    vstd::arithmetic::div_mod::lemma_fundamental_div_mod(sum, d);
    let q = sum / d;
    let low = if previous <= current { previous as int } else { current as int };
    let high = if previous <= current { current as int } else { previous as int };
    assert(low * d <= sum <= high * d) by (nonlinear_arith)
        requires
            sum == current * alpha_numerator + previous * (d - n),
            low <= current <= high,
            low <= previous <= high,
            n == alpha_numerator,
            0 <= n <= d,
    ;
    assert(q <= high) by (nonlinear_arith)
        requires
            q == sum / d,
            sum <= high * d,
            0 < d,
    ;
}

/// A history that is cut to a number of points keeps its end: as many points as fit, in their
/// order, up to the last. A state cuts its history to 120.
pub proof fn cutting_keeps_the_end(history: Seq<BatteryHistoryPoint>, count: nat)
    ensures
        latest(history, count).len() == min(history.len() as int, count as int),
        forall|i: int|
            0 <= i < latest(history, count).len() ==> #[trigger] latest(history, count)[i]
                == history[history.len() - latest(history, count).len() + i],
        MAX_HISTORY_POINTS == 120,
{
}

/// Where the current value weighs more than all, the previous one weighs nothing: the mean is the
/// current value times its weight, rounded down, up to the greatest `u64`.
pub proof fn overweight_mean_forgets_the_previous_value(
    previous: u64,
    current: u64,
    alpha_numerator: u64,
    alpha_denominator: u64,
)
    requires
        0 < alpha_denominator <= alpha_numerator,
    ensures
        ({
            let mean = weighted_mean(previous, current, alpha_numerator, alpha_denominator);
            let share = current * alpha_numerator - alpha_denominator * mean;
            &&& mean < u64::MAX ==> 0 <= share < alpha_denominator
            &&& mean == u64::MAX ==> 0 <= share
        }),
{
    let d = alpha_denominator as int;
    let product = current * alpha_numerator;
    assert(previous * 0 == 0) by (nonlinear_arith);
    assert(product >= 0) by (nonlinear_arith)
        requires
            product == current * alpha_numerator,
            current >= 0,
            alpha_numerator >= 0,
    ;
    vstd::arithmetic::div_mod::lemma_fundamental_div_mod(product, d);
    let q = product / d;
    if q > u64::MAX {
        assert(d * u64::MAX <= d * q) by (nonlinear_arith)
            requires
                u64::MAX < q,
                0 < d,
        ;
        assert(0 <= product % d);
    }
}

} // verus!
