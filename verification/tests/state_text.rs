use battery_up::state_file::{
    format_boolean, format_optional_capacity, format_optional_u64, parse_history_point,
    parse_optional_capacity, parse_optional_u64,
};
use battery_up::{
    format_battery_state, parse_battery_state, BatteryHistoryPoint, BatteryState, StateError,
};

const MINIMAL: &str =
    "counted_seconds=9\non_battery_only=true\nbattery_capacity=50\nupdated_at_unix=123\n";

fn minimal() -> BatteryState {
    parse_battery_state(MINIMAL).unwrap()
}

#[test]
fn a_state_is_written_line_by_line() {
    let mut state = minimal();
    state.last_charged_capacity = None;
    state.power_now_microwatts = Some(7);
    state.history.push(BatteryHistoryPoint {
        updated_at_unix: 1,
        active_drop_percent: 2,
        standby_drop_percent: 3,
        battery_capacity: None,
    });

    assert_eq!(
        format_battery_state(&state),
        "counted_seconds=9\n\
         standby_seconds=0\n\
         on_battery_only=true\n\
         battery_capacity=50\n\
         last_charged_capacity=unknown\n\
         discharge_seconds=0\n\
         active_drop_percent=0\n\
         standby_drop_percent=0\n\
         energy_now_microwatt_hours=unknown\n\
         energy_empty_microwatt_hours=unknown\n\
         power_now_microwatts=7\n\
         short_average_power_microwatts=unknown\n\
         long_average_power_microwatts=unknown\n\
         history=1,2,3,unknown\n\
         updated_at_unix=123\n"
    );
}

#[test]
fn every_needed_line_must_be_there() {
    for missing in [
        "counted_seconds",
        "on_battery_only",
        "battery_capacity",
        "updated_at_unix",
    ] {
        let text: Vec<&str> = MINIMAL
            .lines()
            .filter(|line| !line.starts_with(missing))
            .collect();
        let err = parse_battery_state(&text.join("\n")).unwrap_err();
        assert_eq!(err, StateError::Invalid);
        assert_eq!(err.message(), "invalid battery state file");
    }
}

#[test]
fn later_lines_replace_earlier_ones() {
    let state = parse_battery_state(&format!("{MINIMAL}counted_seconds=10\n")).unwrap();
    assert_eq!(state.counted_seconds, 10);
    assert_eq!(
        parse_battery_state(&format!("{MINIMAL}counted_seconds=x\n")),
        Err(StateError::Invalid)
    );
    let state = parse_battery_state(&format!("{MINIMAL}standby_seconds=5\nstandby_seconds=\n"))
        .unwrap();
    assert_eq!(state.standby_seconds, 0);
    let state = parse_battery_state(&format!("{MINIMAL}battery_capacity=300\n")).unwrap();
    assert_eq!(state.battery_capacity, None);
    assert_eq!(
        parse_battery_state(&format!("{MINIMAL}on_battery_only=True\n")),
        Err(StateError::Invalid)
    );
}

#[test]
fn unknown_lines_do_not_matter() {
    let text = format!("# note\n\nfuture=1\n{MINIMAL}no sign\n counted_seconds=77\n");
    assert_eq!(parse_battery_state(&text).unwrap(), minimal());
    assert_eq!(
        parse_battery_state(&MINIMAL.replace('\n', "\r\n")).unwrap(),
        minimal()
    );
}

#[test]
fn broken_power_lines_are_refused() {
    for key in [
        "energy_now_microwatt_hours",
        "energy_empty_microwatt_hours",
        "power_now_microwatts",
        "short_average_power_microwatts",
        "long_average_power_microwatts",
    ] {
        assert_eq!(
            parse_battery_state(&format!("{MINIMAL}{key}=-1\n")),
            Err(StateError::Invalid)
        );
        assert!(parse_battery_state(&format!("{MINIMAL}{key}=1\n")).is_ok());
        assert!(parse_battery_state(&format!("{MINIMAL}{key}=unknown\n")).is_ok());
    }
}

#[test]
fn history_points_have_four_parts() {
    assert_eq!(
        parse_history_point("1,2,3,4"),
        Ok(BatteryHistoryPoint {
            updated_at_unix: 1,
            active_drop_percent: 2,
            standby_drop_percent: 3,
            battery_capacity: Some(4),
        })
    );
    for text in ["", "1,2,3", "1,2,3,4,5", "1,2,3,", "x,2,3,4", "1,2,3,256", "1, 2,3,4"] {
        assert_eq!(parse_history_point(text), Err(StateError::Invalid));
        assert_eq!(
            parse_battery_state(&format!("{MINIMAL}history={text}\n")),
            Err(StateError::Invalid)
        );
    }
}

#[test]
fn optional_numbers_have_a_word_for_none() {
    assert_eq!(format_optional_capacity(None), "unknown");
    assert_eq!(format_optional_capacity(Some(255)), "255");
    assert_eq!(format_optional_u64(Some(u64::MAX)), "18446744073709551615");
    assert_eq!(format_optional_u64(None), "unknown");
    assert_eq!(parse_optional_capacity("unknown"), Ok(None));
    assert_eq!(parse_optional_capacity("7"), Ok(Some(7)));
    assert_eq!(parse_optional_capacity("256"), Err(StateError::Invalid));
    assert_eq!(parse_optional_u64("unknown"), Ok(None));
    assert_eq!(parse_optional_u64("256"), Ok(Some(256)));
    assert_eq!(parse_optional_u64(""), Err(StateError::Invalid));
    assert_eq!(format_boolean(true), "true");
    assert_eq!(format_boolean(false), "false");
}
