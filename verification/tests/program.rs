use battery_up::applet::{button_padding, AppletModel};
use battery_up::args::{parse_args, parse_option, Args, Command, Invocation, OptionStep};
use battery_up::clock::clamped_to_epoch;
use battery_up::daemon::{Daemon, Session, MAX_SESSION_NANOS};
use battery_up::state::ewma_u64;
use battery_up::{format_battery_state, parse_battery_state, BatteryState, PowerSnapshot};

fn words(line: &str) -> Vec<String> {
    line.split_whitespace().map(|word| word.to_string()).collect()
}

fn parse(line: &str) -> Result<Invocation, String> {
    parse_args(&words(line), true)
}

fn defaults() -> Args {
    Args {
        command: Command::Watch,
        interval_seconds: 1,
        once: false,
        live: false,
        json: false,
        sysfs_root: "/sys/class/power_supply".to_string(),
        state_file: "/var/lib/battery-up/state".to_string(),
    }
}

fn power_snapshot(on_battery_only: bool, battery_capacity: Option<u8>) -> PowerSnapshot {
    PowerSnapshot {
        supplies: Vec::new(),
        on_battery_only,
        battery_capacity,
        battery_energy_now_microwatt_hours: None,
        battery_energy_empty_microwatt_hours: None,
        battery_power_now_microwatts: None,
    }
}

#[test]
fn an_empty_command_line_watches() {
    assert_eq!(parse(""), Ok(Invocation::Run(defaults())));
}

#[test]
fn commands_come_first() {
    for (word, command) in [
        ("watch", Command::Watch),
        ("daemon", Command::Daemon),
        ("status", Command::Status),
        ("reset", Command::Reset),
    ] {
        assert_eq!(
            parse(word),
            Ok(Invocation::Run(Args {
                command,
                ..defaults()
            }))
        );
    }
    assert_eq!(
        parse("--json status"),
        Err("unknown argument: status".to_string())
    );
    assert_eq!(
        parse("status status"),
        Err("unknown argument: status".to_string())
    );
}

#[test]
fn options_are_read_in_any_order() {
    assert_eq!(
        parse("status --live --interval 5 --json --once --sysfs-root /s --state-file /f"),
        Ok(Invocation::Run(Args {
            command: Command::Status,
            interval_seconds: 5,
            once: true,
            live: true,
            json: true,
            sysfs_root: "/s".to_string(),
            state_file: "/f".to_string(),
        }))
    );
    assert_eq!(
        parse("--interval 5 --interval 6"),
        Ok(Invocation::Run(Args {
            interval_seconds: 6,
            ..defaults()
        }))
    );
    assert_eq!(
        parse("--state-file --json"),
        Ok(Invocation::Run(Args {
            state_file: "--json".to_string(),
            ..defaults()
        }))
    );
}

#[test]
fn broken_options_are_refused() {
    for (line, message) in [
        ("--interval", "--interval requires a value in seconds"),
        ("--interval x", "--interval must be a positive integer"),
        ("--interval -1", "--interval must be a positive integer"),
        ("--interval 0", "--interval must be at least 1"),
        ("daemon --sysfs-root", "--sysfs-root requires a path"),
        ("daemon --state-file", "--state-file requires a path"),
        ("--nothing", "unknown argument: --nothing"),
        ("--interval 0 --help", "--interval must be at least 1"),
    ] {
        assert_eq!(parse(line), Err(message.to_string()));
    }
}

fn step(line: &str, at: usize) -> (OptionStep, Args) {
    let mut args = defaults();
    let step = parse_option(&words(line), at, &mut args, true);
    (step, args)
}

#[test]
fn an_option_changes_its_own_setting() {
    let (next, args) = step("--once --interval 5 --json", 1);
    assert_eq!(next, OptionStep::Continue(3));
    assert_eq!(
        args,
        Args {
            interval_seconds: 5,
            ..defaults()
        }
    );
    let (next, args) = step("--once --live", 0);
    assert_eq!(next, OptionStep::Continue(1));
    assert_eq!(
        args,
        Args {
            once: true,
            ..defaults()
        }
    );
    let (next, args) = step("--live", 0);
    assert_eq!(next, OptionStep::Continue(1));
    assert_eq!(
        args,
        Args {
            live: true,
            ..defaults()
        }
    );
    let (next, args) = step("--json", 0);
    assert_eq!(next, OptionStep::Continue(1));
    assert_eq!(
        args,
        Args {
            json: true,
            ..defaults()
        }
    );
    let (next, args) = step("--sysfs-root /s", 0);
    assert_eq!(next, OptionStep::Continue(2));
    assert_eq!(
        args,
        Args {
            sysfs_root: "/s".to_string(),
            ..defaults()
        }
    );
    let (next, args) = step("--state-file /f", 0);
    assert_eq!(next, OptionStep::Continue(2));
    assert_eq!(
        args,
        Args {
            state_file: "/f".to_string(),
            ..defaults()
        }
    );
}

#[test]
fn a_refused_option_changes_nothing() {
    for (line, message) in [
        ("--interval", "--interval requires a value in seconds"),
        ("--interval x --interval x", "--interval must be a positive integer"),
        ("--interval 0", "--interval must be at least 1"),
        ("--sysfs-root", "--sysfs-root requires a path"),
        ("--state-file", "--state-file requires a path"),
        ("--nothing --json", "unknown argument: --nothing"),
    ] {
        let (next, args) = step(line, 0);
        assert_eq!(next, OptionStep::Stop(Err(message.to_string())));
        assert_eq!(args, defaults());
    }
    let (next, args) = step("--help --json", 0);
    assert_eq!(next, OptionStep::Stop(Ok(Invocation::Help)));
    assert_eq!(args, defaults());
    let (next, args) = step("-V --json", 0);
    assert_eq!(next, OptionStep::Stop(Ok(Invocation::Version)));
    assert_eq!(args, defaults());
}

#[test]
fn help_and_version_end_the_reading() {
    assert_eq!(parse("-h"), Ok(Invocation::Help));
    assert_eq!(parse("status --json --help --nothing"), Ok(Invocation::Help));
    assert_eq!(parse("-V"), Ok(Invocation::Version));
    assert_eq!(parse("daemon --version"), Ok(Invocation::Version));
    assert_eq!(
        parse_args(&words("--version"), false),
        Err("unknown argument: --version".to_string())
    );
    assert_eq!(
        parse_args(&words("status -V"), false),
        Err("unknown argument: -V".to_string())
    );
    assert_eq!(parse_args(&words("-h"), false), Ok(Invocation::Help));
}

#[test]
fn the_daemon_counts_time_on_battery_and_asleep() {
    let battery = power_snapshot(true, Some(80));
    let lower = power_snapshot(true, Some(78));
    let plugged = power_snapshot(false, Some(70));

    let mut daemon = Daemon::start_at(&battery, 1000);
    assert_eq!(daemon.counted_seconds, 0);
    assert_eq!(daemon.state, BatteryState::new_at(0, &battery, 1000));

    daemon.tick_at(&battery, 10, 5000, 5000);
    assert_eq!(daemon.counted_seconds, 10);
    assert_eq!(daemon.state.standby_seconds, 0);

    daemon.tick_at(&lower, 10, 5310, 5311);
    assert_eq!(daemon.counted_seconds, 20);
    assert_eq!(daemon.state.standby_seconds, 300);
    assert_eq!(daemon.state.standby_drop_percent, 2);
    assert_eq!(daemon.state.active_drop_percent, 0);
    assert_eq!(daemon.state.updated_at_unix, 5311);

    daemon.tick_at(&plugged, 10, 5400, 5400);
    assert_eq!(daemon.counted_seconds, 20);
    assert_eq!(daemon.state.standby_seconds, 300);

    daemon.tick_at(&battery, 10, 1, 1);
    assert_eq!(daemon.counted_seconds, 30);
    assert_eq!(daemon.state.standby_seconds, 300);

    let last = daemon.finish_at(&battery, 2);
    assert_eq!(last.counted_seconds, 30);
    assert_eq!(last.discharge_seconds, 10);
    assert_eq!(last.updated_at_unix, 2);
}

#[test]
fn a_charged_battery_starts_the_daemon_over() {
    let mut daemon = Daemon::start_at(&power_snapshot(true, Some(80)), 0);
    daemon.tick_at(&power_snapshot(true, Some(79)), 60, 60, 60);
    assert_eq!(daemon.counted_seconds, 60);

    daemon.tick_at(&power_snapshot(false, Some(95)), 60, 120, 120);

    assert_eq!(daemon.counted_seconds, 0);
    assert_eq!(daemon.state.counted_seconds, 0);
    assert_eq!(daemon.state.history.len(), 1);
    assert!(daemon.can_detect_standby);
}

#[test]
fn the_daemon_reads_the_clock() {
    let battery = power_snapshot(true, Some(80));
    let mut daemon = Daemon::start(&battery);
    daemon.state.updated_at_unix = 0;
    daemon.can_detect_standby = true;

    daemon.tick(&battery, 1);

    assert!(daemon.state.updated_at_unix > 1_600_000_000);
    assert!(daemon.state.standby_seconds > 1_600_000_000);
    assert!(daemon.finish(&battery).updated_at_unix >= daemon.state.updated_at_unix);
}

#[test]
fn a_session_counts_only_on_battery() {
    let mut session = Session::new();
    session.tick(&power_snapshot(true, None), 1_500_000_000);
    session.tick(&power_snapshot(false, None), 9_000_000_000);
    session.tick(&power_snapshot(true, None), 700_000_000);

    assert_eq!(session.counted_nanos, 2_200_000_000);
    assert_eq!(session.counted_seconds(), 2);
    assert!(!session.rendered);
    session.mark_rendered();
    assert!(session.rendered);
    assert!(session.has_room(MAX_SESSION_NANOS - 2_200_000_000));
    assert!(!session.has_room(MAX_SESSION_NANOS - 2_199_999_999));
    assert_eq!(
        MAX_SESSION_NANOS,
        std::time::Duration::MAX.as_nanos()
    );
}

#[test]
fn the_mean_is_rounded_down() {
    assert_eq!(ewma_u64(10_000_000, 20_000_000, 30, 100), 13_000_000);
    assert_eq!(ewma_u64(3, 4, 1, 2), 3);
    assert_eq!(ewma_u64(7, 7, 10, 100), 7);
    assert_eq!(ewma_u64(5, u64::MAX, 3, 1), u64::MAX);
    assert_eq!(ewma_u64(u64::MAX, u64::MAX, 30, 100), u64::MAX);
}

#[test]
fn the_applet_shows_the_last_state() {
    let mut model = AppletModel::new();
    assert_eq!(model.label(), "--:--:--");
    assert_eq!(model.icon_name(), "battery-missing-symbolic");

    let mut state = BatteryState::new_at(3661, &power_snapshot(true, None), 0);
    model.refresh(Ok(state.clone()));
    assert_eq!(model.label(), "01:01:01");
    assert_eq!(model.icon_name(), "battery-good-symbolic");
    assert_eq!(model.error, None);

    state.on_battery_only = false;
    model.refresh(Ok(state));
    assert_eq!(model.icon_name(), "battery-full-charging-symbolic");

    model.refresh(Err("gone".to_string()));
    assert_eq!(model.state, None);
    assert_eq!(model.error, Some("gone".to_string()));
    assert_eq!(model.label(), "--:--:--");

    assert_eq!(button_padding(true, 4), (0, 4));
    assert_eq!(button_padding(false, 4), (4, 0));
}

#[test]
fn what_the_daemon_writes_reads_back() {
    let battery = power_snapshot(true, Some(80));
    let mut daemon = Daemon::start_at(&battery, 1000);
    for now in 0..130u64 {
        daemon.tick_at(&battery, 1, 1000 + now, 1000 + now);
        let text = format_battery_state(&daemon.state);
        assert_eq!(parse_battery_state(&text).as_ref(), Ok(&daemon.state));
    }
    assert_eq!(daemon.counted_seconds, 130);
    let last = daemon.finish_at(&battery, 2000);
    assert_eq!(parse_battery_state(&format_battery_state(&last)), Ok(last));
}

#[test]
fn a_clock_before_the_epoch_counts_as_zero() {
    assert_eq!(clamped_to_epoch(Some(7)), 7);
    assert_eq!(clamped_to_epoch(None), 0);
}
