use battery_up::cards;
use battery_up::drain::{
    color_drain, drain_per_minute, format_drain, json_option_figure, standby_drain_per_minute,
    total_battery_seconds, DrainFigure, DrainFigures, DrainLevel, DrainRate,
};
use battery_up::json::{format_snapshot_json, format_state_json};
use battery_up::screen::{
    can_show, describe_read_failure, print_live_state_to, print_snapshot_to, print_state_to,
    write_status_block, write_status_line, Layout,
};
use battery_up::sections::{
    can_chart, format_drop, format_drop_chart, format_snapshot_lines, format_state_lines,
    help_lines, sparkline,
};
use battery_up::style::{
    capacity_bar, capacity_meter, color_capacity, format_capacity, format_duration,
    plain_capacity_meter, state_badge,
};
use battery_up::{BatteryHistoryPoint, BatteryState, PowerSnapshot};

fn figure(rate: Option<DrainRate>) -> Option<DrainFigure> {
    rate.map(|rate| {
        let value = rate.percent as f64 * 60.0 / rate.seconds as f64;
        DrainFigure {
            two_decimals: format!("{value:.2}"),
            four_decimals: format!("{value:.4}"),
            level: if value <= 0.20 {
                DrainLevel::Low
            } else if value <= 0.60 {
                DrainLevel::Moderate
            } else {
                DrainLevel::High
            },
        }
    })
}

fn figures(state: &BatteryState) -> DrainFigures {
    DrainFigures {
        active: figure(drain_per_minute(state)),
        standby: figure(standby_drain_per_minute(state)),
    }
}

fn state_with_history(history: Vec<BatteryHistoryPoint>) -> BatteryState {
    BatteryState {
        counted_seconds: 120,
        standby_seconds: 60,
        on_battery_only: true,
        battery_capacity: Some(87),
        last_charged_capacity: Some(91),
        discharge_seconds: 120,
        active_drop_percent: history
            .last()
            .map(|point| point.active_drop_percent)
            .unwrap_or(0),
        standby_drop_percent: history
            .last()
            .map(|point| point.standby_drop_percent)
            .unwrap_or(0),
        energy_now_microwatt_hours: None,
        energy_empty_microwatt_hours: None,
        power_now_microwatts: None,
        short_average_power_microwatts: None,
        long_average_power_microwatts: None,
        history,
        updated_at_unix: 123,
    }
}

fn two_points() -> Vec<BatteryHistoryPoint> {
    vec![
        BatteryHistoryPoint {
            updated_at_unix: 1,
            active_drop_percent: 0,
            standby_drop_percent: 0,
            battery_capacity: Some(91),
        },
        BatteryHistoryPoint {
            updated_at_unix: 2,
            active_drop_percent: 3,
            standby_drop_percent: 1,
            battery_capacity: Some(87),
        },
    ]
}

fn snapshot() -> PowerSnapshot {
    PowerSnapshot {
        supplies: Vec::new(),
        on_battery_only: true,
        battery_capacity: Some(42),
        battery_energy_now_microwatt_hours: None,
        battery_energy_empty_microwatt_hours: None,
        battery_power_now_microwatts: None,
    }
}

#[test]
fn status_renders_chart_with_enough_history() {
    let state = state_with_history(vec![
        BatteryHistoryPoint {
            updated_at_unix: 1,
            active_drop_percent: 0,
            standby_drop_percent: 0,
            battery_capacity: Some(91),
        },
        BatteryHistoryPoint {
            updated_at_unix: 2,
            active_drop_percent: 3,
            standby_drop_percent: 1,
            battery_capacity: Some(87),
        },
    ]);

    let rendered = format_state_lines(&state, &figures(&state), "now").join("\n");

    assert!(rendered.contains("Drain history"));
    assert!(rendered.contains("Active"));
    assert!(rendered.contains("Standby"));
    assert!(rendered.contains("Scale"));
    assert!(rendered.contains("3% battery used"));
    assert!(rendered.contains("1% battery used"));
    assert!(rendered.contains("█"));
}

#[test]
fn status_renders_chart_fallback_without_enough_history() {
    let state = state_with_history(vec![BatteryHistoryPoint {
        updated_at_unix: 1,
        active_drop_percent: 0,
        standby_drop_percent: 0,
        battery_capacity: Some(91),
    }]);

    let rendered = format_state_lines(&state, &figures(&state), "now").join("\n");

    assert!(rendered.contains("Drain history"));
    assert!(rendered.contains("needs at least 2 samples"));
}

#[test]
fn status_json_includes_drop_history() {
    let state = state_with_history(vec![
        BatteryHistoryPoint {
            updated_at_unix: 1,
            active_drop_percent: 0,
            standby_drop_percent: 0,
            battery_capacity: Some(91),
        },
        BatteryHistoryPoint {
            updated_at_unix: 2,
            active_drop_percent: 3,
            standby_drop_percent: 1,
            battery_capacity: None,
        },
    ]);

    let json = format_state_json(&state, &figures(&state));

    assert!(json.contains("\"active_drop_percent\":3"));
    assert!(json.contains("\"history\":["));
    assert!(json.contains("\"updated_at_unix\":2"));
    assert!(json.contains("\"battery_capacity\":null"));
    assert!(json.contains("\"counted_seconds\":120"));
}

#[test]
fn status_json_is_complete() {
    let state = state_with_history(two_points());

    assert_eq!(
        format_state_json(&state, &figures(&state)),
        "{\"state\":\"battery\",\"on_battery_only\":true,\"battery_capacity\":87,\
         \"last_charged_capacity\":91,\"discharge_seconds\":120,\"drain_per_minute\":2.0000,\
         \"standby_seconds\":60,\"standby_hms\":\"00:01:00\",\"active_drop_percent\":3,\
         \"standby_drop_percent\":1,\"standby_drain_per_minute\":1.0000,\
         \"counted_seconds\":120,\"counted_hms\":\"00:02:00\",\"total_battery_seconds\":180,\
         \"total_battery_hms\":\"00:03:00\",\"updated_at_unix\":123,\"history\":[\
         {\"updated_at_unix\":1,\"active_drop_percent\":0,\"standby_drop_percent\":0,\
         \"battery_capacity\":91},{\"updated_at_unix\":2,\"active_drop_percent\":3,\
         \"standby_drop_percent\":1,\"battery_capacity\":87}]}"
    );
}

#[test]
fn status_lines_are_complete() {
    let state = state_with_history(two_points());

    assert_eq!(
        format_state_lines(&state, &figures(&state), "now"),
        vec![
            "\x1b[1mbattery-up\x1b[0m",
            "\x1b[90mBattery active    \x1b[0m  \x1b[1m00:02:00\x1b[0m",
            "\x1b[90mBattery standby   \x1b[0m  \x1b[1m00:01:00\x1b[0m",
            "\x1b[90mBattery total     \x1b[0m  \x1b[1m00:03:00\x1b[0m",
            "\x1b[90mPower state       \x1b[0m  \x1b[33m● battery\x1b[0m",
            "\x1b[90mBattery           \x1b[0m  \x1b[32m▰▰▰▰▰▰▰▰▰▱\x1b[0m \x1b[32m87%\x1b[0m",
            "\x1b[90mLast charged      \x1b[0m  \x1b[32m91%\x1b[0m",
            "\x1b[90mDrain rate        \x1b[0m  \x1b[31m2.00%/min\x1b[0m",
            "\x1b[90mActive drop       \x1b[0m  \x1b[1m3% battery used\x1b[0m",
            "\x1b[90mStandby drop      \x1b[0m  \x1b[1m1% battery used\x1b[0m",
            "\x1b[90mStandby drain     \x1b[0m  \x1b[31m1.00%/min\x1b[0m",
            "\x1b[90mUpdated           \x1b[0m  \x1b[90mnow\x1b[0m",
            "",
            "\x1b[1mDrain history\x1b[0m",
            "\x1b[90mActive            \x1b[0m  \x1b[33m▁█\x1b[0m \x1b[1m3% battery used\x1b[0m",
            "\x1b[90mStandby           \x1b[0m  \x1b[36m▁▃\x1b[0m \x1b[1m1% battery used\x1b[0m",
            "\x1b[90mScale             \x1b[0m  \x1b[90m0% to 3% battery used\x1b[0m",
        ]
    );
}

#[test]
fn session_lines_are_complete() {
    assert_eq!(
        format_snapshot_lines(&snapshot(), 3725),
        vec![
            "\x1b[1mbattery-up\x1b[0m",
            "\x1b[90mSession on battery\x1b[0m  \x1b[1m01:02:05\x1b[0m",
            "\x1b[90mPower state       \x1b[0m  \x1b[33m● battery\x1b[0m",
            "\x1b[90mBattery           \x1b[0m  \x1b[33m▰▰▰▰▱▱▱▱▱▱\x1b[0m \x1b[33m42%\x1b[0m",
        ]
    );
    assert_eq!(
        format_snapshot_json(&snapshot(), 3725, true),
        "{\"state\":\"battery\",\"on_battery_only\":true,\"battery_capacity\":42,\
         \"counted_seconds\":3725,\"counted_hms\":\"01:02:05\",\"final\":true}"
    );
}

#[test]
fn help_names_every_command_and_option() {
    let help = help_lines();

    assert_eq!(help.len(), 13);
    assert_eq!(help[0], "\x1b[1mbattery-up help\x1b[0m");
    assert_eq!(
        help[1],
        "\x1b[90mUsage             \x1b[0m  \x1b[1mbattery-up [command] [options]\x1b[0m"
    );
    assert_eq!(
        help[10],
        "\x1b[90m-V, --version     \x1b[0m  show version and exit"
    );
    assert_eq!(
        help[12],
        "\x1b[90m--sysfs-root      \x1b[0m  /sys/class/power_supply"
    );
    assert_eq!(cards::help_lines().len(), 13);
}

#[test]
fn durations_are_split_into_parts() {
    assert_eq!(format_duration(0), "00:00:00");
    assert_eq!(format_duration(59), "00:00:59");
    assert_eq!(format_duration(3661), "01:01:01");
    assert_eq!(format_duration(359_999), "99:59:59");
    assert_eq!(format_duration(360_000), "100:00:00");
    assert_eq!(format_duration(u64::MAX), "5124095576030431:00:15");
}

#[test]
fn capacities_are_drawn_in_bands() {
    assert_eq!(format_capacity(None), "unknown");
    assert_eq!(color_capacity(Some(70)), "\x1b[32m70%\x1b[0m");
    assert_eq!(color_capacity(Some(69)), "\x1b[33m69%\x1b[0m");
    assert_eq!(color_capacity(Some(30)), "\x1b[33m30%\x1b[0m");
    assert_eq!(color_capacity(Some(29)), "\x1b[31m29%\x1b[0m");
    assert_eq!(color_capacity(None), "\x1b[90munknown\x1b[0m");
    assert_eq!(capacity_bar(0, true), "▱▱▱▱▱▱▱▱▱▱");
    assert_eq!(capacity_bar(5, true), "▰▱▱▱▱▱▱▱▱▱");
    assert_eq!(capacity_bar(255, false), "▰".repeat(18));
    assert_eq!(plain_capacity_meter(Some(50)), "▰▰▰▰▰▰▰▰▰▱▱▱▱▱▱▱▱▱ 50%");
    assert_eq!(plain_capacity_meter(None), "unknown");
    assert_eq!(capacity_meter(None), "\x1b[90munknown\x1b[0m");
    assert_eq!(state_badge("x", false), "\x1b[32m● x\x1b[0m");
    for capacity in 0..=255u8 {
        assert_eq!(capacity_bar(capacity, true).chars().count(), 10);
        assert_eq!(capacity_bar(capacity, false).chars().count(), 18);
    }
}

#[test]
fn losses_are_put_in_words() {
    assert_eq!(format_drop(0), "no battery used");
    assert_eq!(format_drop(1), "1% battery used");
    assert_eq!(format_drop(12), "12% battery used");
}

#[test]
fn blocks_round_to_the_nearest_height() {
    assert_eq!(sparkline(&vec![0, 1, 2, 3, 4, 5, 6, 7], 7), "▁▂▃▄▅▆▇█");
    assert_eq!(sparkline(&vec![0, 1, 2, 3], 3), "▁▃▆█");
    assert_eq!(sparkline(&vec![5, 5], 0), "▁▁");
    assert_eq!(sparkline(&Vec::new(), 3), "");
}

#[test]
fn charts_show_the_latest_points() {
    let mut history = Vec::new();
    for index in 0..40u64 {
        history.push(BatteryHistoryPoint {
            updated_at_unix: index,
            active_drop_percent: index,
            standby_drop_percent: 0,
            battery_capacity: None,
        });
    }

    assert!(can_chart(&history));
    let chart = format_drop_chart(&history);

    assert_eq!(chart.len(), 5);
    assert_eq!(
        chart[2],
        "\x1b[90mActive            \x1b[0m  \x1b[33m▅▅▅▅▆▆▆▆▆▇▇▇▇▇▇███\x1b[0m \x1b[1m39% battery used\x1b[0m"
    );
    assert_eq!(
        chart[4],
        "\x1b[90mScale             \x1b[0m  \x1b[90m0% to 39% battery used\x1b[0m"
    );
}

#[test]
fn losses_without_end_cannot_be_charted() {
    let mut history = two_points();
    history[1].active_drop_percent = u64::MAX;

    assert!(!can_chart(&history));
    history[1].active_drop_percent = u64::MAX / 8;
    assert!(can_chart(&history));
    history[1].active_drop_percent = u64::MAX;
    let state = state_with_history(history);
    assert!(!can_show(Layout::Sections, &state, false));
    assert!(can_show(Layout::Sections, &state, true));
    assert!(can_show(Layout::Cards, &state, false));
}

#[test]
fn drain_rates_need_a_loss_and_a_time() {
    let state = state_with_history(two_points());
    assert_eq!(
        drain_per_minute(&state),
        Some(DrainRate {
            percent: 4,
            seconds: 120
        })
    );
    assert_eq!(
        standby_drain_per_minute(&state),
        Some(DrainRate {
            percent: 1,
            seconds: 60
        })
    );
    assert_eq!(total_battery_seconds(&state), 180);

    let mut plugged = state.clone();
    plugged.on_battery_only = false;
    assert_eq!(drain_per_minute(&plugged), None);

    let mut fresh = state.clone();
    fresh.discharge_seconds = 0;
    fresh.standby_seconds = 0;
    assert_eq!(drain_per_minute(&fresh), None);
    assert_eq!(standby_drain_per_minute(&fresh), None);

    let mut full = state.clone();
    full.battery_capacity = Some(91);
    full.standby_drop_percent = 0;
    assert_eq!(drain_per_minute(&full), None);
    assert_eq!(standby_drain_per_minute(&full), None);

    let mut unknown = state.clone();
    unknown.last_charged_capacity = None;
    assert_eq!(drain_per_minute(&unknown), None);
    let mut unknown = state;
    unknown.battery_capacity = None;
    unknown.counted_seconds = u64::MAX;
    assert_eq!(drain_per_minute(&unknown), None);
    assert_eq!(total_battery_seconds(&unknown), u64::MAX);
}

#[test]
fn drain_figures_are_colored_by_level() {
    let slow = figure(Some(DrainRate {
        percent: 1,
        seconds: 300,
    }));
    let fast = figure(Some(DrainRate {
        percent: 1,
        seconds: 100,
    }));

    assert_eq!(format_drain(slow.as_ref()), "0.20%/min");
    assert_eq!(color_drain(slow.as_ref()), "\x1b[32m0.20%/min\x1b[0m");
    assert_eq!(color_drain(fast.as_ref()), "\x1b[33m0.60%/min\x1b[0m");
    assert_eq!(json_option_figure(fast.as_ref()), "0.6000");
    assert_eq!(format_drain(None), "unknown");
    assert_eq!(color_drain(None), "\x1b[90munknown\x1b[0m");
    assert_eq!(json_option_figure(None), "null");
}

#[test]
fn cards_are_complete() {
    let state = state_with_history(two_points());

    assert_eq!(
        cards::format_state_lines(&state, &figures(&state).active),
        vec![
            format!("╭ battery-up {}╮", "─".repeat(44)),
            format!(
                "│ \x1b[90mTotal on battery  \x1b[0m  \x1b[1m00:02:00\x1b[0m{} │",
                " ".repeat(26)
            ),
            format!(
                "│ \x1b[90mPower state       \x1b[0m  \x1b[33m● battery\x1b[0m{} │",
                " ".repeat(25)
            ),
            format!(
                "│ \x1b[90mBattery           \x1b[0m  \x1b[32m▰▰▰▰▰▰▰▰▰▱\x1b[0m \x1b[32m87%\x1b[0m{} │",
                " ".repeat(12)
            ),
            format!(
                "│ \x1b[90mLast charged      \x1b[0m  \x1b[32m91%\x1b[0m{} │",
                " ".repeat(31)
            ),
            format!(
                "│ \x1b[90mDrain rate        \x1b[0m  \x1b[31m2.00%/min\x1b[0m{} │",
                " ".repeat(25)
            ),
            format!(
                "│ \x1b[90mUpdated           \x1b[0m  \x1b[90m123\x1b[0m{} │",
                " ".repeat(31)
            ),
            format!("╰{}╯", "─".repeat(56)),
        ]
    );
    assert_eq!(
        cards::format_state_json(&state, &figures(&state).active),
        "{\"state\":\"battery\",\"on_battery_only\":true,\"battery_capacity\":87,\
         \"last_charged_capacity\":91,\"discharge_seconds\":120,\"drain_per_minute\":2.0000,\
         \"counted_seconds\":120,\"counted_hms\":\"00:02:00\",\"updated_at_unix\":123}"
    );
    assert_eq!(cards::format_snapshot_lines(&snapshot(), 0).len(), 5);
}

#[test]
fn rows_are_padded_by_columns() {
    assert_eq!(
        cards::display_row("a", "[日本]", "日本"),
        format!(
            "\x1b[90ma{}\x1b[0m  [日本]{}",
            " ".repeat(17),
            " ".repeat(30)
        )
    );
    assert_eq!(
        cards::display_row("a", "[e\u{301}]", "e\u{301}"),
        format!(
            "\x1b[90ma{}\x1b[0m  [e\u{301}]{}",
            " ".repeat(17),
            " ".repeat(33)
        )
    );
    assert_eq!(
        cards::display_row("a label that is too long", "x", &"y".repeat(40)),
        "\x1b[90ma label that is too long\x1b[0m  x"
    );
}

#[test]
fn cards_with_long_titles_have_no_fill() {
    let title = "t".repeat(60);
    let lines = cards::card_lines(&title, &vec!["row".to_string()]);

    assert_eq!(lines[0], format!("╭ {title} ╮"));
    assert_eq!(lines[1], "│ row │");
    assert_eq!(cards::card_lines("é", &Vec::new())[0], format!("╭ é {}╮", "─".repeat(52)));
}

#[test]
fn status_lines_are_redrawn_in_place() {
    let mut out = String::new();
    write_status_line(&mut out, "a", false);
    write_status_line(&mut out, "b", true);
    assert_eq!(out, "\x1b[1G\x1b[2Kab\n");
}

#[test]
fn status_blocks_are_redrawn_in_place() {
    let lines = vec!["a".to_string(), "b".to_string(), "c".to_string()];

    let mut out = String::new();
    write_status_block(&mut out, &lines, false, false);
    assert_eq!(
        out,
        "\x1b[1G\x1b[2Ka\n\x1b[1G\x1b[2Kb\n\x1b[1G\x1b[2Kc"
    );

    let mut out = String::new();
    write_status_block(&mut out, &lines, true, true);
    assert_eq!(out, "\x1b[2Aa\nb\nc\n");

    let mut out = String::new();
    write_status_block(&mut out, &vec!["a".to_string()], true, true);
    assert_eq!(out, "a\n");

    let mut out = String::new();
    write_status_block(&mut out, &Vec::new(), true, true);
    assert_eq!(out, "");
}

#[test]
fn snapshots_are_printed_as_a_block_or_as_json() {
    let mut out = String::new();
    print_snapshot_to(&mut out, Layout::Sections, &snapshot(), 5, true, true, true);
    assert_eq!(
        out,
        format!(
            "\x1b[1G\x1b[2K{}\n",
            format_snapshot_json(&snapshot(), 5, true)
        )
    );

    let mut out = String::new();
    print_snapshot_to(&mut out, Layout::Sections, &snapshot(), 5, true, true, false);
    assert_eq!(out, format!("{}\n", format_snapshot_json(&snapshot(), 5, true)));

    let mut out = String::new();
    print_snapshot_to(&mut out, Layout::Cards, &snapshot(), 5, false, true, false);
    assert_eq!(
        out,
        format!("{}\n", cards::format_snapshot_lines(&snapshot(), 5).join("\n"))
    );
}

#[test]
fn states_are_printed_as_a_block_or_as_json() {
    let state = state_with_history(two_points());
    let figures = figures(&state);

    let mut out = String::new();
    print_state_to(&mut out, Layout::Sections, &state, &figures, "now", true, true);
    assert_eq!(out, format!("{}\n", format_state_json(&state, &figures)));

    let mut out = String::new();
    print_state_to(&mut out, Layout::Sections, &state, &figures, "now", false, true);
    assert_eq!(
        out,
        format!("{}\n", format_state_lines(&state, &figures, "now").join("\n"))
    );

    let mut out = String::new();
    print_live_state_to(&mut out, Layout::Sections, &state, &figures, "now", true, true);
    assert_eq!(
        out,
        format!("\x1b[1G\x1b[2K{}", format_state_json(&state, &figures))
    );

    let mut out = String::new();
    print_live_state_to(&mut out, Layout::Cards, &state, &figures, "now", false, true);
    assert!(out.starts_with("\x1b[7A\x1b[1G\x1b[2K╭ battery-up "));
    assert!(out.ends_with("╯"));
}

#[test]
fn a_missing_state_file_is_explained() {
    assert_eq!(
        describe_read_failure(true, "/tmp/x", "cause"),
        "state file not found at /tmp/x; start the systemd service or run `battery-up daemon`"
    );
    assert_eq!(describe_read_failure(false, "/tmp/x", "cause"), "cause");
}

#[test]
fn session_blocks_are_drawn_over_each_other() {
    let mut plugged = snapshot();
    plugged.on_battery_only = false;
    plugged.battery_capacity = None;
    for layout in [Layout::Sections, Layout::Cards] {
        let mut before = String::new();
        print_snapshot_to(&mut before, layout, &snapshot(), 0, false, false, false);
        let mut after = String::new();
        print_snapshot_to(&mut after, layout, &plugged, 360_000, false, false, true);

        let up = before.matches('\n').count();
        assert!(after.starts_with(&format!("\x1b[{up}A")));
        assert_eq!(after.matches('\n').count(), up);
    }
}
