//! The loops that accumulate time: the background daemon and the session of a terminal.
//!
//! The caller sleeps, reads the clock and the supplies, and hands the readings over.

use crate::clock::unix_now;
use crate::state::{
    held_sum, initial_state, next_state, resets_counters, BatteryState, StateView,
};
use crate::state_file::{is_state_text, state_of_text, state_text};
use crate::supply::{PowerSnapshot, SnapshotView};
use vstd::math::{max, min};
use vstd::prelude::*;

verus! {

// ---------------------------------------------------------------------------
// The daemon
// ---------------------------------------------------------------------------

/// What the daemon carries from one sample to the next.
#[derive(Debug, Clone, PartialEq, Eq)]
pub struct Daemon {
    /// The state that was written last.
    pub state: BatteryState,
    /// The time on battery so far.
    pub counted_seconds: u64,
    /// Whether a gap in the wall clock can be told from the start of the program.
    pub can_detect_standby: bool,
}

/// The model of [`Daemon`].
pub struct DaemonView {
    pub state: StateView,
    pub counted_seconds: u64,
    pub can_detect_standby: bool,
}

impl View for Daemon {
    type V = DaemonView;

    open spec fn view(&self) -> DaemonView {
        DaemonView {
            state: self.state@,
            counted_seconds: self.counted_seconds,
            can_detect_standby: self.can_detect_standby,
        }
    }
}

/// The daemon right after its start: nothing is counted, whatever was written before.
pub open spec fn started(snapshot: SnapshotView, now: u64) -> DaemonView {
    DaemonView {
        state: initial_state(0, snapshot, now),
        counted_seconds: 0,
        can_detect_standby: false,
    }
}

/// The difference, held at zero.
pub open spec fn held_difference(a: u64, b: u64) -> u64 {
    if a >= b {
        (a - b) as u64
    } else {
        0
    }
}

/// The time asleep since the last state: what the wall clock went on beyond the time that
/// the program was running.
pub open spec fn time_asleep(daemon: DaemonView, elapsed_seconds: u64, wall_now: u64) -> u64 {
    if daemon.can_detect_standby {
        held_difference(
            held_difference(wall_now, daemon.state.updated_at_unix),
            elapsed_seconds,
        )
    } else {
        0
    }
}

/// The time on battery after one more sample, before a reset.
pub open spec fn counted_after(counted_seconds: u64, snapshot: SnapshotView, elapsed_seconds: u64) -> u64 {
    if snapshot.on_battery_only {
        held_sum(counted_seconds, elapsed_seconds)
    } else {
        counted_seconds
    }
}

/// The daemon after one more sample. The wall clock is read at `wall_now` to find the time
/// asleep and at `now` to stamp the state.
pub open spec fn ticked(
    daemon: DaemonView,
    snapshot: SnapshotView,
    elapsed_seconds: u64,
    wall_now: u64,
    now: u64,
) -> DaemonView {
    let state = next_state(
        Some(daemon.state),
        counted_after(daemon.counted_seconds, snapshot, elapsed_seconds),
        snapshot,
        elapsed_seconds,
        time_asleep(daemon, elapsed_seconds, wall_now),
        now,
    );
    DaemonView { state, counted_seconds: state.counted_seconds, can_detect_standby: true }
}

/// The last state of the daemon, which counts no more time.
pub open spec fn finished(daemon: DaemonView, snapshot: SnapshotView, now: u64) -> StateView {
    next_state(Some(daemon.state), daemon.counted_seconds, snapshot, 0, 0, now)
}

impl Daemon {
    /// Starts the daemon at the current time.
    pub fn start(snapshot: &PowerSnapshot) -> (daemon: Self)
        ensures
            daemon@ == started(snapshot@, daemon.state.updated_at_unix),
    {
        Self::start_at(snapshot, unix_now())
    }

    /// Starts the daemon at the time `now`.
    pub fn start_at(snapshot: &PowerSnapshot, now: u64) -> (daemon: Self)
        ensures
            daemon@ == started(snapshot@, now),
    {
        Daemon {
            state: BatteryState::new_at(0, snapshot, now),
            counted_seconds: 0,
            can_detect_standby: false,
        }
    }

    /// Takes one more sample, reading the wall clock before and after.
    pub fn tick(&mut self, snapshot: &PowerSnapshot, elapsed_seconds: u64)
        ensures
            exists|wall_now: u64|
                final(self)@ == #[trigger] ticked(
                    old(self)@,
                    snapshot@,
                    elapsed_seconds,
                    wall_now,
                    final(self).state.updated_at_unix,
                ),
    {
        let wall_now: u64 = unix_now();
        let now: u64 = unix_now();
        self.tick_at(snapshot, elapsed_seconds, wall_now, now);
        assert(self@ == ticked(old(self)@, snapshot@, elapsed_seconds, wall_now, now));
    }

    /// Takes one more sample with the wall clock at `wall_now`, and stamps the state with
    /// `now`.
    pub fn tick_at(
        &mut self,
        snapshot: &PowerSnapshot,
        elapsed_seconds: u64,
        wall_now: u64,
        now: u64,
    )
        ensures
            final(self)@ == ticked(old(self)@, snapshot@, elapsed_seconds, wall_now, now),
    {
        let wall_elapsed: u64 = wall_now.saturating_sub(self.state.updated_at_unix);
        let standby_elapsed: u64 = if self.can_detect_standby {
            wall_elapsed.saturating_sub(elapsed_seconds)
        } else {
            0
        };
        let counted: u64 = if snapshot.on_battery_only {
            self.counted_seconds.saturating_add(elapsed_seconds)
        } else {
            self.counted_seconds
        };
        let state = BatteryState::next_at(
            Some(&self.state),
            counted,
            snapshot,
            elapsed_seconds,
            standby_elapsed,
            now,
        );
        self.counted_seconds = state.counted_seconds;
        self.state = state;
        self.can_detect_standby = true;
    }

    /// The state to leave behind, stamped with the current time.
    pub fn finish(&self, snapshot: &PowerSnapshot) -> (state: BatteryState)
        ensures
            state@ == finished(self@, snapshot@, state.updated_at_unix),
    {
        self.finish_at(snapshot, unix_now())
    }

    /// The state to leave behind, stamped with `now`.
    pub fn finish_at(&self, snapshot: &PowerSnapshot, now: u64) -> (state: BatteryState)
        ensures
            state@ == finished(self@, snapshot@, now),
    {
        BatteryState::next_at(Some(&self.state), self.counted_seconds, snapshot, 0, 0, now)
    }
}

// ---------------------------------------------------------------------------
// The session of a terminal
// ---------------------------------------------------------------------------

/// How many nanoseconds a second has.
pub const NANOS_PER_SECOND: u128 = 1_000_000_000;

/// The longest time that a session can count, in nanoseconds.
pub const MAX_SESSION_NANOS: u128 = 18_446_744_073_709_551_615_999_999_999;

/// What a session looks at when it is time for another sample.
pub struct SessionTick {
    pub on_battery_only: bool,
    pub elapsed_nanos: u128,
}

/// The time that one sample adds: all of it on battery, and nothing otherwise.
pub open spec fn session_time(tick: SessionTick) -> nat {
    if tick.on_battery_only {
        tick.elapsed_nanos as nat
    } else {
        0
    }
}

/// The time that a session has counted after one more sample.
pub open spec fn session_counted(counted_nanos: nat, tick: SessionTick) -> nat {
    counted_nanos + session_time(tick)
}

/// The time that a session has counted, and whether anything has been shown yet.
#[derive(Debug, Clone, Copy, PartialEq, Eq)]
pub struct Session {
    pub counted_nanos: u128,
    pub rendered: bool,
}

impl Session {
    /// Whether the counted time is within bounds.
    pub open spec fn wf(self) -> bool {
        self.counted_nanos <= MAX_SESSION_NANOS
    }

    /// A session that has counted nothing.
    pub fn new() -> (session: Self)
        ensures
            session.wf(),
            session.counted_nanos == 0,
            !session.rendered,
    {
        Session { counted_nanos: 0, rendered: false }
    }

    /// Whether so much more time can be counted.
    pub fn has_room(&self, elapsed_nanos: u128) -> (r: bool)
        requires
            self.wf(),
        ensures
            r == (self.counted_nanos + elapsed_nanos <= MAX_SESSION_NANOS),
    {
        elapsed_nanos <= MAX_SESSION_NANOS - self.counted_nanos
    }

    /// Counts the time since the last sample if the machine ran on battery.
    pub fn tick(&mut self, snapshot: &PowerSnapshot, elapsed_nanos: u128)
        requires
            old(self).wf(),
            snapshot.on_battery_only ==> old(self).counted_nanos + elapsed_nanos
                <= MAX_SESSION_NANOS,
        ensures
            final(self).wf(),
            final(self).counted_nanos == session_counted(
                old(self).counted_nanos as nat,
                SessionTick { on_battery_only: snapshot.on_battery_only, elapsed_nanos },
            ),
            final(self).rendered == old(self).rendered,
    {
        if snapshot.on_battery_only {
            self.counted_nanos = self.counted_nanos + elapsed_nanos;
        }
    }

    /// Notes that something has been shown.
    pub fn mark_rendered(&mut self)
        ensures
            final(self).rendered,
            final(self).counted_nanos == old(self).counted_nanos,
    {
        self.rendered = true;
    }

    /// The whole seconds that the session has counted.
    pub fn counted_seconds(&self) -> (seconds: u64)
        requires
            self.wf(),
        ensures
            seconds == self.counted_nanos / NANOS_PER_SECOND,
    {
        (self.counted_nanos / NANOS_PER_SECOND) as u64
    }
}

// ---------------------------------------------------------------------------
// Laws
// ---------------------------------------------------------------------------

/// Whether the daemon counts the same time as the state that it wrote last.
pub open spec fn in_step(daemon: DaemonView) -> bool {
    daemon.counted_seconds == daemon.state.counted_seconds
}

/// The daemon and its state never count different times.
pub proof fn daemon_stays_in_step(
    daemon: DaemonView,
    snapshot: SnapshotView,
    elapsed_seconds: u64,
    wall_now: u64,
    now: u64,
)
    ensures
        in_step(started(snapshot, now)),
        in_step(ticked(daemon, snapshot, elapsed_seconds, wall_now, now)),
{
}

/// A start counts from zero.
pub proof fn start_counts_from_zero(snapshot: SnapshotView, now: u64)
    ensures
        ({
            let state = started(snapshot, now).state;
            &&& state.counted_seconds == 0
            &&& state.standby_seconds == 0
            &&& state.discharge_seconds == 0
            &&& state.active_drop_percent == 0
            &&& state.standby_drop_percent == 0
        }),
{
}

/// The first sample after a start finds no time asleep, however the wall clock stands.
pub proof fn first_sample_finds_no_sleep(
    start: SnapshotView,
    started_at: u64,
    snapshot: SnapshotView,
    elapsed_seconds: u64,
    wall_now: u64,
    now: u64,
)
    ensures
        ticked(
            started(start, started_at),
            snapshot,
            elapsed_seconds,
            wall_now,
            now,
        ).state.standby_seconds == 0,
{
}

/// The time while the program was running is never taken for time asleep: a wall clock that
/// went on by no more than that adds nothing.
pub proof fn running_time_is_not_sleep(daemon: DaemonView, elapsed_seconds: u64, wall_now: u64)
    requires
        wall_now <= daemon.state.updated_at_unix + elapsed_seconds,
    ensures
        time_asleep(daemon, elapsed_seconds, wall_now) == 0,
{
}

/// One reading of everything that the daemon looks at.
pub struct Sample {
    pub snapshot: SnapshotView,
    pub elapsed_seconds: u64,
    pub wall_now: u64,
    pub now: u64,
}

/// The daemon after a list of samples.
pub open spec fn ran(daemon: DaemonView, samples: Seq<Sample>) -> DaemonView
    decreases samples.len(),
{
    if samples.len() == 0 {
        daemon
    } else {
        let s = samples.last();
        ticked(
            ran(daemon, samples.drop_last()),
            s.snapshot,
            s.elapsed_seconds,
            s.wall_now,
            s.now,
        )
    }
}

/// The time of all samples that found the machine on battery.
pub open spec fn time_on_battery(samples: Seq<Sample>) -> nat
    decreases samples.len(),
{
    if samples.len() == 0 {
        0
    } else {
        time_on_battery(samples.drop_last()) + (if samples.last().snapshot.on_battery_only {
            samples.last().elapsed_seconds as nat
        } else {
            0
        })
    }
}

/// As long as nothing resets the counters, the daemon has counted exactly the time of the
/// samples that found the machine on battery, up to the greatest `u64`.
pub proof fn daemon_counts_the_time_on_battery(daemon: DaemonView, samples: Seq<Sample>)
    requires
        forall|i: int| 0 <= i < samples.len() ==> !resets_counters((#[trigger] samples[i]).snapshot),
    ensures
        ran(daemon, samples).counted_seconds == (if daemon.counted_seconds + time_on_battery(samples)
            > u64::MAX {
            u64::MAX as int
        } else {
            daemon.counted_seconds + time_on_battery(samples)
        }),
    decreases samples.len(),
{
    if samples.len() > 0 {
        let earlier = samples.drop_last();
        assert forall|i: int| 0 <= i < earlier.len() implies !resets_counters(
            (#[trigger] earlier[i]).snapshot,
        ) by {
            assert(!resets_counters(samples[i].snapshot));
        }
        daemon_counts_the_time_on_battery(daemon, earlier);
        assert(!resets_counters(samples[samples.len() - 1].snapshot));
    }
}

/// Whatever the daemon writes, at its start, at a sample or at its end, reads back as the very
/// state that it holds.
pub proof fn daemon_state_reads_back(
    daemon: DaemonView,
    snapshot: SnapshotView,
    elapsed_seconds: u64,
    wall_now: u64,
    now: u64,
)
    ensures
        reads_back(started(snapshot, now).state),
        reads_back(ticked(daemon, snapshot, elapsed_seconds, wall_now, now).state),
        reads_back(finished(daemon, snapshot, now)),
{
    crate::state_file::bounded_state_reads_back(started(snapshot, now).state);
    crate::state_file::bounded_state_reads_back(
        ticked(daemon, snapshot, elapsed_seconds, wall_now, now).state,
    );
    crate::state_file::bounded_state_reads_back(finished(daemon, snapshot, now));
}

/// Whether a state reads back from its text form.
pub open spec fn reads_back(state: StateView) -> bool {
    is_state_text(state_text(state)) && state_of_text(state_text(state)) == state
}

/// Ending the daemon counts no more time: without a reset it leaves the time that it had
/// counted.
pub proof fn ending_counts_nothing(daemon: DaemonView, snapshot: SnapshotView, now: u64)
    requires
        !resets_counters(snapshot),
    ensures
        finished(daemon, snapshot, now).counted_seconds == daemon.counted_seconds,
        finished(daemon, snapshot, now).standby_seconds == daemon.state.standby_seconds,
{
}

/// The time that a session has counted after a list of samples.
pub open spec fn session_ran(counted_nanos: nat, ticks: Seq<SessionTick>) -> nat
    decreases ticks.len(),
{
    if ticks.len() == 0 {
        counted_nanos
    } else {
        session_counted(session_ran(counted_nanos, ticks.drop_last()), ticks.last())
    }
}

/// A session has counted what it had before and the elapsed times of all samples on battery,
/// whatever stands between them. It never counts less after a sample than before, so a list of
/// samples whose time fits at its end fits all along.
pub proof fn session_counts_the_time_on_battery(
    counted_nanos: nat,
    ticks: Seq<SessionTick>,
    earlier: int,
)
    requires
        0 <= earlier <= ticks.len(),
    ensures
        session_ran(counted_nanos, ticks) == counted_nanos + session_times(ticks),
        session_ran(counted_nanos, ticks.take(earlier)) <= session_ran(counted_nanos, ticks),
    decreases ticks.len(),
{
    if earlier == ticks.len() {
        assert(ticks.take(earlier) =~= ticks);
    }
    if ticks.len() > 0 {
        let before = ticks.drop_last();
        if earlier < ticks.len() {
            assert(ticks.take(earlier) =~= before.take(earlier));
            session_counts_the_time_on_battery(counted_nanos, before, earlier);
        } else {
            session_counts_the_time_on_battery(counted_nanos, before, 0);
        }
    }
}

/// The sum of the elapsed times of all samples on battery.
pub open spec fn session_times(ticks: Seq<SessionTick>) -> nat
    decreases ticks.len(),
{
    if ticks.len() == 0 {
        0
    } else {
        session_times(ticks.drop_last()) + session_time(ticks.last())
    }
}

/// What was counted before a reset does not matter afterwards.
pub proof fn reset_starts_over(
    daemon: DaemonView,
    other: DaemonView,
    snapshot: SnapshotView,
    elapsed_seconds: u64,
    wall_now: u64,
    now: u64,
)
    requires
        resets_counters(snapshot),
    ensures
        ticked(daemon, snapshot, elapsed_seconds, wall_now, now) == ticked(
            other,
            snapshot,
            elapsed_seconds,
            wall_now,
            now,
        ),
        ticked(daemon, snapshot, elapsed_seconds, wall_now, now).counted_seconds == 0,
{
}

/// A sample adds the elapsed time to the time counted if the machine is on battery, up to the
/// greatest `u64`, and leaves it otherwise. A battery off duty that is charged to 95 percent or
/// more sets it to zero. The state written says the same and has the time of the sample.
pub proof fn samples_count_elapsed_time_on_battery(
    daemon: DaemonView,
    snapshot: SnapshotView,
    elapsed_seconds: u64,
    wall_now: u64,
    now: u64,
)
    ensures
        ({
            let after = ticked(daemon, snapshot, elapsed_seconds, wall_now, now);
            &&& snapshot.on_battery_only ==> after.counted_seconds == min(
                daemon.counted_seconds + elapsed_seconds,
                u64::MAX as int,
            )
            &&& !snapshot.on_battery_only && (snapshot.battery_capacity is None
                || snapshot.battery_capacity->0 < 95) ==> after.counted_seconds
                == daemon.counted_seconds
            &&& !snapshot.on_battery_only && snapshot.battery_capacity is Some
                && snapshot.battery_capacity->0 >= 95 ==> after.counted_seconds == 0
            &&& after.state.counted_seconds == after.counted_seconds
            &&& after.state.updated_at_unix == now
            &&& after.can_detect_standby
        }),
{
}

/// Between two samples on battery the time asleep is what the wall clock went on since the last
/// state beyond the elapsed time, and never less than nothing. It counts from the second sample
/// on. Where either sample is off battery and nothing starts over, none is added.
pub proof fn samples_count_sleep_on_battery(
    daemon: DaemonView,
    snapshot: SnapshotView,
    elapsed_seconds: u64,
    wall_now: u64,
    now: u64,
)
    ensures
        ({
            let after = ticked(daemon, snapshot, elapsed_seconds, wall_now, now).state;
            let before = daemon.state;
            &&& before.on_battery_only && snapshot.on_battery_only && daemon.can_detect_standby
                ==> after.standby_seconds == min(
                before.standby_seconds + max(
                    0,
                    wall_now - before.updated_at_unix - elapsed_seconds,
                ),
                u64::MAX as int,
            )
            &&& before.on_battery_only && snapshot.on_battery_only && !daemon.can_detect_standby
                ==> after.standby_seconds == before.standby_seconds
            &&& !before.on_battery_only && snapshot.on_battery_only ==> after.standby_seconds
                == before.standby_seconds
            &&& !snapshot.on_battery_only && (snapshot.battery_capacity is None
                || snapshot.battery_capacity->0 < 95) ==> after.standby_seconds
                == before.standby_seconds
        }),
{
}

/// Between two samples on battery a loss falls to the time asleep if the wall clock went on by
/// more than the elapsed time and that can be told, and to the time awake otherwise. The
/// discharge time goes on by the elapsed time either way.
pub proof fn samples_tell_losses_asleep_from_losses_awake(
    daemon: DaemonView,
    snapshot: SnapshotView,
    elapsed_seconds: u64,
    wall_now: u64,
    now: u64,
)
    requires
        daemon.state.on_battery_only,
        snapshot.on_battery_only,
        daemon.state.battery_capacity is Some,
        snapshot.battery_capacity is Some,
    ensures
        ({
            let after = ticked(daemon, snapshot, elapsed_seconds, wall_now, now).state;
            let before = daemon.state;
            let lost = max(0, before.battery_capacity->0 - snapshot.battery_capacity->0);
            let asleep = daemon.can_detect_standby && wall_now - before.updated_at_unix
                > elapsed_seconds;
            &&& after.standby_drop_percent == min(
                before.standby_drop_percent + (if asleep { lost } else { 0 }),
                u64::MAX as int,
            )
            &&& after.active_drop_percent == min(
                before.active_drop_percent + (if asleep { 0 } else { lost }),
                u64::MAX as int,
            )
            &&& after.discharge_seconds == min(
                before.discharge_seconds + elapsed_seconds,
                u64::MAX as int,
            )
        }),
{
}

/// A start writes a state in which nothing is counted, whatever the supplies say, and cannot tell
/// time asleep yet.
pub proof fn start_knows_only_its_sample(snapshot: SnapshotView, now: u64)
    ensures
        ({
            let daemon = started(snapshot, now);
            &&& daemon.counted_seconds == 0
            &&& !daemon.can_detect_standby
            &&& daemon.state.counted_seconds == 0
            &&& daemon.state.standby_seconds == 0
            &&& daemon.state.active_drop_percent == 0
            &&& daemon.state.standby_drop_percent == 0
            &&& daemon.state.history.len() == 1
            &&& daemon.state.on_battery_only == snapshot.on_battery_only
            &&& daemon.state.battery_capacity == snapshot.battery_capacity
            &&& daemon.state.updated_at_unix == now
        }),
{
}

/// The state left at the end counts no more time, awake or asleep, unless the battery is off duty
/// and charged to 95 percent or more, which starts over. A battery that went on draining keeps
/// its discharge time.
pub proof fn end_adds_no_time(daemon: DaemonView, snapshot: SnapshotView, now: u64)
    ensures
        ({
            let last = finished(daemon, snapshot, now);
            &&& last.updated_at_unix == now
            &&& snapshot.on_battery_only || snapshot.battery_capacity is None
            || snapshot.battery_capacity->0 < 95 ==> {
                &&& last.counted_seconds == daemon.counted_seconds
                &&& last.standby_seconds == daemon.state.standby_seconds
                &&& last.standby_drop_percent == daemon.state.standby_drop_percent
            }
            &&& !snapshot.on_battery_only && snapshot.battery_capacity is Some
                && snapshot.battery_capacity->0 >= 95 ==> last.counted_seconds == 0
                && last.standby_seconds == 0
            &&& snapshot.on_battery_only && daemon.state.on_battery_only ==> last.discharge_seconds
                == daemon.state.discharge_seconds
        }),
{
}

proof fn lemma_ran_in_two(daemon: DaemonView, first: Seq<Sample>, second: Seq<Sample>)
    ensures
        ran(daemon, first + second) == ran(ran(daemon, first), second),
    decreases second.len(),
{
    if second.len() == 0 {
        assert(first + second =~= first);
    } else {
        assert((first + second).drop_last() =~= first + second.drop_last());
        lemma_ran_in_two(daemon, first, second.drop_last());
    }
}

/// However the daemon was started and whatever it counted, after a sample that finds a battery
/// off duty charged to 95 percent or more it counts only the time on battery since then, until
/// the next such sample.
pub proof fn daemon_counts_since_the_last_charge(
    daemon: DaemonView,
    earlier: Seq<Sample>,
    charged: Sample,
    later: Seq<Sample>,
)
    requires
        !charged.snapshot.on_battery_only,
        charged.snapshot.battery_capacity is Some,
        charged.snapshot.battery_capacity->0 >= 95,
        forall|i: int|
            0 <= i < later.len() ==> (#[trigger] later[i]).snapshot.on_battery_only
                || later[i].snapshot.battery_capacity is None
                || later[i].snapshot.battery_capacity->0 < 95,
    ensures
        ran(daemon, earlier.push(charged) + later).counted_seconds == min(
            time_on_battery(later) as int,
            u64::MAX as int,
        ),
{
    lemma_ran_in_two(daemon, earlier.push(charged), later);
    assert(earlier.push(charged).drop_last() =~= earlier);
    let reset = ran(daemon, earlier.push(charged));
    assert(reset.counted_seconds == 0);
    daemon_counts_the_time_on_battery(reset, later);
}

/// A sample adds its time to a session on battery and leaves the session alone otherwise.
pub proof fn session_ticks_on_battery(counted_nanos: nat, elapsed_nanos: u128)
    ensures
        session_counted(counted_nanos, SessionTick { on_battery_only: true, elapsed_nanos })
            == counted_nanos + elapsed_nanos,
        session_counted(counted_nanos, SessionTick { on_battery_only: false, elapsed_nanos })
            == counted_nanos,
        NANOS_PER_SECOND == 1_000_000_000,
        MAX_SESSION_NANOS == u64::MAX * 1_000_000_000 + 999_999_999,
{
}

} // verus!
