use battery_up::{
    format_battery_state, parse_battery_state, power_snapshot_from_files, BatteryHistoryPoint,
    BatteryState, PowerSnapshot, SnapshotError, SupplyFiles, SupplyKind, MAX_HISTORY_POINTS,
};

struct Fixture {
    entries: Vec<SupplyFiles>,
}

impl Fixture {
    fn new() -> Self {
        Self {
            entries: Vec::new(),
        }
    }

    fn supply(&mut self, name: &str, fields: &[(&str, &str)]) {
        let file = |wanted: &str| {
            fields
                .iter()
                .find(|(field, _)| *field == wanted)
                .map(|(_, value)| value.to_string())
        };
        self.entries.push(SupplyFiles {
            directory: Some(name.to_string()),
            kind: file("type"),
            status: file("status"),
            online: file("online"),
            capacity: file("capacity"),
            energy_now: file("energy_now"),
            energy_empty: file("energy_empty"),
            power_now: file("power_now"),
            charge_now: file("charge_now"),
            charge_empty: file("charge_empty"),
            current_now: file("current_now"),
            voltage_now: file("voltage_now"),
        });
    }
}

fn power_snapshot(on_battery_only: bool, battery_capacity: Option<u8>) -> PowerSnapshot {
    PowerSnapshot {
        supplies: Vec::new(),
        on_battery_only,
        battery_capacity,
        battery_energy_now_microwatt_hours: None,
        battery_energy_empty_microwatt_hours: None,
        battery_power_now_microwatts: None,
    }
}

fn history_point(
    updated_at_unix: u64,
    active_drop_percent: u64,
    standby_drop_percent: u64,
    battery_capacity: Option<u8>,
) -> BatteryHistoryPoint {
    BatteryHistoryPoint {
        updated_at_unix,
        active_drop_percent,
        standby_drop_percent,
        battery_capacity,
    }
}

fn earlier_state() -> BatteryState {
    BatteryState {
        counted_seconds: 3661,
        standby_seconds: 120,
        on_battery_only: true,
        battery_capacity: Some(55),
        last_charged_capacity: Some(80),
        discharge_seconds: 900,
        active_drop_percent: 23,
        standby_drop_percent: 2,
        energy_now_microwatt_hours: None,
        energy_empty_microwatt_hours: None,
        power_now_microwatts: None,
        short_average_power_microwatts: None,
        long_average_power_microwatts: None,
        history: vec![history_point(123, 23, 2, Some(55))],
        updated_at_unix: 123,
    }
}

#[test]
fn counts_when_battery_is_discharging_and_external_power_is_offline() {
    let mut fixture = Fixture::new();
    fixture.supply(
        "BAT1",
        &[
            ("type", "Battery\n"),
            ("status", "Discharging\n"),
            ("capacity", "42\n"),
        ],
    );
    fixture.supply("ACAD", &[("type", "Mains\n"), ("online", "0\n")]);

    let snapshot = power_snapshot_from_files(&fixture.entries).unwrap();

    assert!(snapshot.on_battery_only);
    assert_eq!(snapshot.battery_capacity, Some(42));
}

#[test]
fn reads_energy_and_power_for_remaining_estimates() {
    let mut fixture = Fixture::new();
    fixture.supply(
        "BAT1",
        &[
            ("type", "Battery\n"),
            ("status", "Discharging\n"),
            ("capacity", "42\n"),
            ("energy_now", "42000000\n"),
            ("energy_empty", "1000000\n"),
            ("power_now", "12000000\n"),
        ],
    );
    fixture.supply("ACAD", &[("type", "Mains\n"), ("online", "0\n")]);

    let snapshot = power_snapshot_from_files(&fixture.entries).unwrap();

    assert_eq!(
        snapshot.battery_energy_now_microwatt_hours,
        Some(42_000_000)
    );
    assert_eq!(
        snapshot.battery_energy_empty_microwatt_hours,
        Some(1_000_000)
    );
    assert_eq!(snapshot.battery_power_now_microwatts, Some(12_000_000));
}

#[test]
fn derives_energy_and_power_from_charge_current_and_voltage() {
    let mut fixture = Fixture::new();
    fixture.supply(
        "BAT1",
        &[
            ("type", "Battery\n"),
            ("status", "Discharging\n"),
            ("charge_now", "3000000\n"),
            ("charge_empty", "100000\n"),
            ("current_now", "1000000\n"),
            ("voltage_now", "12000000\n"),
        ],
    );
    fixture.supply("ACAD", &[("type", "Mains\n"), ("online", "0\n")]);

    let snapshot = power_snapshot_from_files(&fixture.entries).unwrap();

    assert_eq!(
        snapshot.battery_energy_now_microwatt_hours,
        Some(36_000_000)
    );
    assert_eq!(
        snapshot.battery_energy_empty_microwatt_hours,
        Some(1_200_000)
    );
    assert_eq!(snapshot.battery_power_now_microwatts, Some(12_000_000));
}

#[test]
fn does_not_count_when_usb_power_is_online() {
    let mut fixture = Fixture::new();
    fixture.supply(
        "BAT1",
        &[("type", "Battery\n"), ("status", "Discharging\n")],
    );
    fixture.supply(
        "ucsi-source-psy-USBC000:001",
        &[("type", "USB\n"), ("online", "1\n")],
    );

    let snapshot = power_snapshot_from_files(&fixture.entries).unwrap();

    assert!(!snapshot.on_battery_only);
}

#[test]
fn does_not_count_when_battery_is_charging() {
    let mut fixture = Fixture::new();
    fixture.supply(
        "BAT1",
        &[
            ("type", "Battery\n"),
            ("status", "Charging\n"),
            ("capacity", "80\n"),
        ],
    );
    fixture.supply("ACAD", &[("type", "Mains\n"), ("online", "1\n")]);

    let snapshot = power_snapshot_from_files(&fixture.entries).unwrap();

    assert!(!snapshot.on_battery_only);
}

#[test]
fn fails_when_no_battery_is_present() {
    let mut fixture = Fixture::new();
    fixture.supply("ACAD", &[("type", "Mains\n"), ("online", "1\n")]);

    let err = power_snapshot_from_files(&fixture.entries).unwrap_err();

    assert_eq!(err, SnapshotError::NoBattery);
}

#[test]
fn any_online_external_source_blocks_counting() {
    let mut fixture = Fixture::new();
    fixture.supply(
        "BAT1",
        &[("type", "Battery\n"), ("status", "Discharging\n")],
    );
    fixture.supply("ACAD", &[("type", "Mains\n"), ("online", "0\n")]);
    fixture.supply("USB-C", &[("type", "USB\n"), ("online", "1\n")]);

    let snapshot = power_snapshot_from_files(&fixture.entries).unwrap();

    assert!(!snapshot.on_battery_only);
}

#[test]
fn writes_and_reads_battery_state() {
    let state = BatteryState {
        counted_seconds: 3661,
        standby_seconds: 120,
        on_battery_only: true,
        battery_capacity: Some(55),
        last_charged_capacity: Some(80),
        discharge_seconds: 900,
        active_drop_percent: 23,
        standby_drop_percent: 2,
        energy_now_microwatt_hours: Some(44_000_000),
        energy_empty_microwatt_hours: Some(0),
        power_now_microwatts: Some(11_000_000),
        short_average_power_microwatts: Some(12_000_000),
        long_average_power_microwatts: Some(10_000_000),
        history: vec![
            BatteryHistoryPoint {
                updated_at_unix: 100,
                active_drop_percent: 10,
                standby_drop_percent: 0,
                battery_capacity: Some(70),
            },
            BatteryHistoryPoint {
                updated_at_unix: 123,
                active_drop_percent: 23,
                standby_drop_percent: 2,
                battery_capacity: Some(55),
            },
        ],
        updated_at_unix: 123,
    };

    let raw = format_battery_state(&state);

    assert_eq!(parse_battery_state(&raw).unwrap(), state);
}

#[test]
fn reads_old_state_without_active_drop_or_history() {
    let state = parse_battery_state(
        "counted_seconds=9\non_battery_only=false\nbattery_capacity=unknown\nupdated_at_unix=123\n",
    )
    .unwrap();

    assert_eq!(state.battery_capacity, None);
    assert_eq!(state.last_charged_capacity, None);
    assert_eq!(state.discharge_seconds, 0);
    assert_eq!(state.standby_seconds, 0);
    assert_eq!(state.active_drop_percent, 0);
    assert_eq!(state.standby_drop_percent, 0);
    assert_eq!(state.energy_now_microwatt_hours, None);
    assert_eq!(state.power_now_microwatts, None);
    assert_eq!(state.short_average_power_microwatts, None);
    assert!(state.history.is_empty());
}

#[test]
fn tracks_last_charged_capacity_and_discharge_seconds() {
    let plugged = power_snapshot(false, Some(91));
    let discharging = power_snapshot(true, Some(88));

    let state = BatteryState::next(None, 0, &plugged, 0, 0);
    let state = BatteryState::next(Some(&state), 60, &discharging, 60, 0);

    assert_eq!(state.last_charged_capacity, Some(91));
    assert_eq!(state.discharge_seconds, 60);

    let state = BatteryState::next(Some(&state), 120, &discharging, 60, 0);

    assert_eq!(state.last_charged_capacity, Some(91));
    assert_eq!(state.discharge_seconds, 120);
}

#[test]
fn smooths_recent_power_draw_while_discharging() {
    let first = PowerSnapshot {
        battery_energy_now_microwatt_hours: Some(40_000_000),
        battery_energy_empty_microwatt_hours: Some(0),
        battery_power_now_microwatts: Some(10_000_000),
        ..power_snapshot(true, Some(80))
    };
    let second = PowerSnapshot {
        battery_energy_now_microwatt_hours: Some(39_800_000),
        battery_energy_empty_microwatt_hours: Some(0),
        battery_power_now_microwatts: Some(20_000_000),
        ..power_snapshot(true, Some(79))
    };

    let state = BatteryState::next(None, 60, &first, 60, 0);
    let state = BatteryState::next(Some(&state), 120, &second, 60, 0);

    assert_eq!(state.power_now_microwatts, Some(20_000_000));
    assert_eq!(state.short_average_power_microwatts, Some(13_000_000));
    assert_eq!(state.long_average_power_microwatts, Some(11_000_000));
}

#[test]
fn resets_relevant_data_when_capacity_reaches_95_percent() {
    let previous = BatteryState {
        counted_seconds: 3661,
        standby_seconds: 120,
        on_battery_only: true,
        battery_capacity: Some(55),
        last_charged_capacity: Some(80),
        discharge_seconds: 900,
        active_drop_percent: 23,
        standby_drop_percent: 2,
        energy_now_microwatt_hours: None,
        energy_empty_microwatt_hours: None,
        power_now_microwatts: None,
        short_average_power_microwatts: None,
        long_average_power_microwatts: None,
        history: vec![BatteryHistoryPoint {
            updated_at_unix: 123,
            active_drop_percent: 23,
            standby_drop_percent: 2,
            battery_capacity: Some(55),
        }],
        updated_at_unix: 123,
    };
    let charged = power_snapshot(false, Some(95));

    let state = BatteryState::next(Some(&previous), 4000, &charged, 60, 300);

    assert_eq!(state.counted_seconds, 0);
    assert_eq!(state.standby_seconds, 0);
    assert!(!state.on_battery_only);
    assert_eq!(state.battery_capacity, Some(95));
    assert_eq!(state.last_charged_capacity, Some(95));
    assert_eq!(state.discharge_seconds, 0);
    assert_eq!(state.active_drop_percent, 0);
    assert_eq!(state.standby_drop_percent, 0);
    assert_eq!(state.history.len(), 1);
    assert_eq!(state.history[0].active_drop_percent, 0);
    assert_eq!(state.history[0].standby_drop_percent, 0);
    assert_eq!(state.history[0].battery_capacity, Some(95));
}

#[test]
fn keeps_counters_when_capacity_is_below_95_percent() {
    let previous = BatteryState {
        counted_seconds: 3661,
        standby_seconds: 120,
        on_battery_only: true,
        battery_capacity: Some(55),
        last_charged_capacity: Some(80),
        discharge_seconds: 900,
        active_drop_percent: 23,
        standby_drop_percent: 2,
        energy_now_microwatt_hours: None,
        energy_empty_microwatt_hours: None,
        power_now_microwatts: None,
        short_average_power_microwatts: None,
        long_average_power_microwatts: None,
        history: vec![BatteryHistoryPoint {
            updated_at_unix: 123,
            active_drop_percent: 23,
            standby_drop_percent: 2,
            battery_capacity: Some(55),
        }],
        updated_at_unix: 123,
    };
    let charged = power_snapshot(false, Some(94));

    let state = BatteryState::next(Some(&previous), 4000, &charged, 60, 300);

    assert_eq!(state.counted_seconds, 4000);
    assert_eq!(state.standby_seconds, 120);
    assert_eq!(state.active_drop_percent, 23);
    assert_eq!(state.standby_drop_percent, 2);
    assert_eq!(state.history.len(), 2);
}

#[test]
fn keeps_counting_when_discharging_at_or_above_95_percent() {
    let previous = BatteryState {
        counted_seconds: 30,
        standby_seconds: 0,
        on_battery_only: true,
        battery_capacity: Some(97),
        last_charged_capacity: Some(98),
        discharge_seconds: 30,
        active_drop_percent: 1,
        standby_drop_percent: 0,
        energy_now_microwatt_hours: None,
        energy_empty_microwatt_hours: None,
        power_now_microwatts: None,
        short_average_power_microwatts: None,
        long_average_power_microwatts: None,
        history: vec![BatteryHistoryPoint {
            updated_at_unix: 123,
            active_drop_percent: 1,
            standby_drop_percent: 0,
            battery_capacity: Some(97),
        }],
        updated_at_unix: 123,
    };
    let discharging = power_snapshot(true, Some(96));

    let state = BatteryState::next(Some(&previous), 90, &discharging, 60, 0);

    assert_eq!(state.counted_seconds, 90);
    assert_eq!(state.discharge_seconds, 90);
    assert_eq!(state.last_charged_capacity, Some(98));
    assert_eq!(state.active_drop_percent, 2);
    assert_eq!(state.standby_drop_percent, 0);
    assert_eq!(state.history.len(), 2);
}

#[test]
fn tracks_active_drop_when_no_standby_is_detected() {
    let discharging_before = power_snapshot(true, Some(88));
    let discharging_after = power_snapshot(true, Some(85));

    let state = BatteryState::next(None, 60, &discharging_before, 60, 0);
    let state = BatteryState::next(Some(&state), 120, &discharging_after, 60, 0);

    assert_eq!(state.active_drop_percent, 3);
    assert_eq!(state.standby_drop_percent, 0);
    assert_eq!(state.history.len(), 2);
    assert_eq!(state.history[1].active_drop_percent, 3);
    assert_eq!(state.history[1].standby_drop_percent, 0);
}

#[test]
fn tracks_standby_time_and_drop_separately() {
    let discharging_before = power_snapshot(true, Some(88));
    let discharging_after = power_snapshot(true, Some(86));

    let state = BatteryState::next(None, 60, &discharging_before, 60, 0);
    let state = BatteryState::next(Some(&state), 120, &discharging_after, 60, 300);

    assert_eq!(state.counted_seconds, 120);
    assert_eq!(state.discharge_seconds, 120);
    assert_eq!(state.standby_seconds, 300);
    assert_eq!(state.active_drop_percent, 0);
    assert_eq!(state.standby_drop_percent, 2);
    assert_eq!(state.history.len(), 2);
    assert_eq!(state.history[1].active_drop_percent, 0);
    assert_eq!(state.history[1].standby_drop_percent, 2);
}

#[test]
fn limits_history_to_latest_points() {
    let mut state = BatteryState::new(0, &power_snapshot(true, Some(100)));

    for index in 0..MAX_HISTORY_POINTS + 5 {
        state.history.push(BatteryHistoryPoint {
            updated_at_unix: index as u64,
            active_drop_percent: index as u64,
            standby_drop_percent: 0,
            battery_capacity: Some(100),
        });
    }

    let raw = format_battery_state(&state);
    let state = parse_battery_state(&raw).unwrap();

    assert_eq!(state.history.len(), MAX_HISTORY_POINTS);
    assert_eq!(state.history[0].active_drop_percent, 5);
}

#[test]
fn reads_every_kind_of_supply() {
    let mut fixture = Fixture::new();
    fixture.supply("BAT0", &[("type", " Battery \n"), ("capacity", "100")]);
    fixture.supply("AC", &[("type", "Mains\n"), ("online", "1\n")]);
    fixture.supply("C0", &[("type", "USB\n"), ("online", "x\n")]);
    fixture.supply("W", &[("type", "Wireless\n"), ("online", "1\n")]);
    fixture.supply("none", &[("online", "1\n")]);
    fixture.entries.push(SupplyFiles {
        directory: None,
        ..fixture.entries[3].clone()
    });

    let snapshot = power_snapshot_from_files(&fixture.entries).unwrap();

    let kinds: Vec<SupplyKind> = snapshot.supplies.iter().map(|s| s.kind.clone()).collect();
    assert_eq!(
        kinds,
        vec![
            SupplyKind::Battery,
            SupplyKind::Mains,
            SupplyKind::Usb,
            SupplyKind::Other("Wireless".to_string()),
            SupplyKind::Other("Wireless".to_string()),
        ]
    );
    assert_eq!(snapshot.supplies[0].name, "BAT0");
    assert_eq!(snapshot.supplies[4].name, "unknown");
    assert_eq!(snapshot.supplies[0].online, None);
    assert_eq!(snapshot.supplies[1].online, Some(true));
    assert_eq!(snapshot.supplies[2].online, None);
    assert_eq!(snapshot.battery_capacity, Some(100));
    assert!(!snapshot.on_battery_only);
    assert_eq!(snapshot.state_label(), "external-or-idle");
}

#[test]
fn other_sources_do_not_block_counting() {
    let mut fixture = Fixture::new();
    fixture.supply(
        "BAT0",
        &[("type", "Battery\n"), ("status", "Discharging\n")],
    );
    fixture.supply("W", &[("type", "Wireless\n"), ("online", "1\n")]);

    let snapshot = power_snapshot_from_files(&fixture.entries).unwrap();

    assert!(snapshot.on_battery_only);
    assert_eq!(snapshot.state_label(), "battery");
}

#[test]
fn several_batteries_add_up_in_any_order() {
    let mut fixture = Fixture::new();
    fixture.supply(
        "BAT0",
        &[
            ("type", "Battery\n"),
            ("status", "Discharging\n"),
            ("capacity", "40\n"),
            ("energy_now", "10\n"),
            ("power_now", "5\n"),
        ],
    );
    fixture.supply(
        "BAT1",
        &[
            ("type", "Battery\n"),
            ("status", "Charging\n"),
            ("capacity", "70\n"),
            ("energy_now", "32\n"),
            ("power_now", "9\n"),
        ],
    );
    fixture.supply("BAT2", &[("type", "Battery\n"), ("capacity", "255x\n")]);

    let forward = power_snapshot_from_files(&fixture.entries).unwrap();
    fixture.entries.reverse();
    let backward = power_snapshot_from_files(&fixture.entries).unwrap();

    assert_eq!(forward.battery_capacity, Some(70));
    assert_eq!(forward.battery_energy_now_microwatt_hours, Some(42));
    assert_eq!(forward.battery_energy_empty_microwatt_hours, None);
    assert_eq!(forward.battery_power_now_microwatts, Some(5));
    assert!(forward.on_battery_only);
    assert_eq!(
        backward,
        PowerSnapshot {
            supplies: backward.supplies.clone(),
            ..forward
        }
    );
}

#[test]
fn totals_are_held_at_the_greatest_number() {
    let mut fixture = Fixture::new();
    for name in ["BAT0", "BAT1"] {
        fixture.supply(
            name,
            &[
                ("type", "Battery\n"),
                ("energy_now", "18446744073709551615\n"),
                ("charge_empty", "18446744073709551615\n"),
                ("voltage_now", "1000001\n"),
            ],
        );
    }

    let snapshot = power_snapshot_from_files(&fixture.entries).unwrap();

    assert_eq!(snapshot.battery_energy_now_microwatt_hours, Some(u64::MAX));
    assert_eq!(snapshot.battery_energy_empty_microwatt_hours, None);
}

#[test]
fn missing_battery_is_reported() {
    let err = power_snapshot_from_files(&Vec::new()).unwrap_err();

    assert_eq!(err.message(), "no battery power supply found");
}

#[test]
fn new_state_is_stamped_with_the_clock() {
    let before = std::time::SystemTime::now()
        .duration_since(std::time::UNIX_EPOCH)
        .unwrap()
        .as_secs();
    let state = BatteryState::new(7, &power_snapshot(false, Some(50)));
    let after = std::time::SystemTime::now()
        .duration_since(std::time::UNIX_EPOCH)
        .unwrap()
        .as_secs();

    assert!(before <= state.updated_at_unix && state.updated_at_unix <= after);
    assert_eq!(state.history[0].updated_at_unix, state.updated_at_unix);
    assert_eq!(state.counted_seconds, 7);
    assert_eq!(state.last_charged_capacity, Some(50));
    assert_eq!(state.state_label(), "external-or-idle");
    assert_eq!(
        BatteryState::new(0, &power_snapshot(true, Some(50))).last_charged_capacity,
        None
    );
}

#[test]
fn averages_start_over_when_the_battery_takes_over() {
    let drawing = PowerSnapshot {
        battery_power_now_microwatts: Some(10),
        ..power_snapshot(true, Some(80))
    };
    let plugged = power_snapshot(false, Some(80));
    let idle = PowerSnapshot {
        battery_power_now_microwatts: Some(0),
        ..power_snapshot(true, Some(80))
    };

    let state = BatteryState::next_at(None, 0, &plugged, 0, 0, 1);
    assert_eq!(state.short_average_power_microwatts, None);
    let state = BatteryState::next_at(Some(&state), 0, &drawing, 0, 0, 2);
    assert_eq!(state.short_average_power_microwatts, Some(10));
    assert_eq!(state.long_average_power_microwatts, Some(10));
    let state = BatteryState::next_at(Some(&state), 0, &idle, 0, 0, 3);
    assert_eq!(state.short_average_power_microwatts, None);
    assert_eq!(state.power_now_microwatts, Some(0));
}

#[test]
fn nothing_accumulates_while_plugged_in() {
    let previous = earlier_state();

    let state =
        BatteryState::next_at(Some(&previous), 3661, &power_snapshot(false, Some(50)), 60, 300, 9);

    assert_eq!(state.standby_seconds, 120);
    assert_eq!(state.discharge_seconds, 0);
    assert_eq!(state.active_drop_percent, 23);
    assert_eq!(state.standby_drop_percent, 2);
    assert_eq!(state.last_charged_capacity, Some(50));
    assert_eq!(state.updated_at_unix, 9);

    let state =
        BatteryState::next_at(Some(&previous), 3661, &power_snapshot(false, None), 60, 300, 9);

    assert_eq!(state.last_charged_capacity, Some(80));
}

#[test]
fn counters_are_held_at_the_greatest_number() {
    let mut previous = earlier_state();
    previous.standby_seconds = u64::MAX;
    previous.discharge_seconds = u64::MAX - 1;
    previous.standby_drop_percent = u64::MAX;

    let state =
        BatteryState::next_at(Some(&previous), 3661, &power_snapshot(true, Some(50)), 60, 300, 9);

    assert_eq!(state.standby_seconds, u64::MAX);
    assert_eq!(state.discharge_seconds, u64::MAX);
    assert_eq!(state.standby_drop_percent, u64::MAX);
    assert_eq!(state.active_drop_percent, 23);
}

#[test]
fn the_oldest_points_leave_the_history() {
    let mut state = earlier_state();
    for now in 0..200u64 {
        state = BatteryState::next_at(Some(&state), 0, &power_snapshot(true, Some(50)), 1, 0, now);
    }

    assert_eq!(state.history.len(), MAX_HISTORY_POINTS);
    assert_eq!(state.history[0].updated_at_unix, 80);
    assert_eq!(state.history[119].updated_at_unix, 199);
}
