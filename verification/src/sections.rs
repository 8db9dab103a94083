//! The plain layout: a title, one row per fact and a chart below.

use crate::drain::{
    active_drain, battery_seconds, color_drain, drain_code, drain_per_minute, drain_text, shown,
    shown_figure, standby_drain, standby_drain_per_minute, total_battery_seconds, DrainFigures,
};
use crate::state::{latest, BatteryHistoryPoint, BatteryState, StateView};
use crate::style::{
    badge, bold, capacity_code, capacity_meter, capacity_text, color, color_bold, color_capacity,
    color_muted, colored, duration_text, format_duration, meter_text, muted, state_badge,
};
use crate::supply::{power_state_label, PowerSnapshot, SnapshotView};
use crate::text::{decimal_string, pad_right, push_decimal, strings_view};
use vstd::prelude::*;

verus! {

// ---------------------------------------------------------------------------
// Rows and sections
// ---------------------------------------------------------------------------

/// How many characters a label takes.
pub const LABEL_WIDTH: usize = 18;

/// A label, filled up to its width, and a value behind it.
pub open spec fn row(label: Seq<char>, value: Seq<char>) -> Seq<char> {
    muted(crate::text::padded(label, LABEL_WIDTH as nat)) + "  "@ + value
}

/// A title and the rows below it.
pub open spec fn section(title: Seq<char>, rows: Seq<Seq<char>>) -> Seq<Seq<char>> {
    seq![bold(title)] + rows
}

/// Writes a row.
pub fn display_row(label: &str, styled_value: &str) -> (r: String)
    ensures
        r@ == row(label@, styled_value@),
{
    let mut out = color_muted(pad_right(label, LABEL_WIDTH).as_str());
    out.append("  ");
    out.append(styled_value);
    out
}

/// Puts a title above rows.
pub fn section_lines(title: &str, rows: &Vec<String>) -> (lines: Vec<String>)
    ensures
        strings_view(lines@) == section(title@, strings_view(rows@)),
{
    let mut lines: Vec<String> = Vec::new();
    lines.push(color_bold(title));
    let mut i: usize = 0;
    assert(strings_view(lines@) =~= section(title@, strings_view(rows@).take(0)));
    while i < rows.len()
        invariant
            i <= rows@.len(),
            strings_view(lines@) == section(title@, strings_view(rows@).take(i as int)),
        decreases rows@.len() - i,
    {
        let ghost before = lines@;
        lines.push(rows[i].clone());
        i += 1;
        assert(strings_view(lines@) =~= strings_view(before).push(rows@[i - 1]@));
        assert(strings_view(lines@) =~= section(title@, strings_view(rows@).take(i as int)));
    }
    assert(strings_view(rows@).take(rows@.len() as int) =~= strings_view(rows@));
    lines
}

// ---------------------------------------------------------------------------
// The chart
// ---------------------------------------------------------------------------

/// How many points the chart shows.
pub const CHART_WIDTH: usize = 18;

/// A loss in percent.
pub open spec fn drop_text(percent: u64) -> Seq<char> {
    if percent == 0 {
        "no battery used"@
    } else {
        crate::text::decimal(percent as nat) + "% battery used"@
    }
}

/// The block that fills a cell to a level from 0 to 7.
pub open spec fn tick(level: int) -> char {
    if level <= 0 {
        '▁'
    } else if level == 1 {
        '▂'
    } else if level == 2 {
        '▃'
    } else if level == 3 {
        '▄'
    } else if level == 4 {
        '▅'
    } else if level == 5 {
        '▆'
    } else if level == 6 {
        '▇'
    } else {
        '█'
    }
}

/// The level of a value: its share of the greatest one in sevenths, rounded to the nearest.
pub open spec fn tick_level(value: u64, max_value: u64) -> int {
    if max_value == 0 {
        0
    } else {
        (value * 7 + max_value / 2) / (max_value as int)
    }
}

/// Whether the level of a value can be worked out in 64 bits and is one of the eight.
pub open spec fn has_tick(value: u64, max_value: u64) -> bool {
    max_value == 0 || {
        &&& value * 7 + max_value / 2 <= u64::MAX
        &&& tick_level(value, max_value) <= 7
    }
}

/// One block for each value.
pub open spec fn sparkline_text(values: Seq<u64>, max_value: u64) -> Seq<char> {
    Seq::new(values.len(), |i: int| tick(tick_level(values[i], max_value)))
}

/// The active losses of a list of points.
pub open spec fn active_drops(points: Seq<BatteryHistoryPoint>) -> Seq<u64> {
    Seq::new(points.len(), |i: int| points[i].active_drop_percent)
}

/// The standby losses of a list of points.
pub open spec fn standby_drops(points: Seq<BatteryHistoryPoint>) -> Seq<u64> {
    Seq::new(points.len(), |i: int| points[i].standby_drop_percent)
}

/// The greatest of a list of numbers, and at least one.
pub open spec fn greatest(values: Seq<u64>) -> u64
    decreases values.len(),
{
    if values.len() == 0 {
        1
    } else {
        let earlier = greatest(values.drop_last());
        if values.last() > earlier {
            values.last()
        } else {
            earlier
        }
    }
}

/// The points that the chart shows.
pub open spec fn charted(history: Seq<BatteryHistoryPoint>) -> Seq<BatteryHistoryPoint> {
    latest(history, CHART_WIDTH as nat)
}

/// The loss at the top of the chart.
pub open spec fn chart_scale(history: Seq<BatteryHistoryPoint>) -> u64 {
    let active = greatest(active_drops(charted(history)));
    let standby = greatest(standby_drops(charted(history)));
    if active >= standby {
        active
    } else {
        standby
    }
}

/// Whether a history can be charted: its losses leave room for seven times the greatest.
pub open spec fn is_chartable(history: Seq<BatteryHistoryPoint>) -> bool {
    history.len() < 2 || chart_scale(history) * 7 + chart_scale(history) / 2 <= u64::MAX
}

/// A row of the chart: the line of blocks and the latest loss.
pub open spec fn chart_row(label: Seq<char>, drops: Seq<u64>, scale: u64, code: Seq<char>) -> Seq<
    char,
> {
    row(
        label,
        colored(sparkline_text(drops, scale), code) + " "@ + bold(drop_text(drops.last())),
    )
}

/// The label of the scale.
pub open spec fn scale_text(scale: u64) -> Seq<char> {
    "0% to "@ + crate::text::decimal(scale as nat) + "% battery used"@
}

/// The chart of a history.
pub open spec fn chart_lines(history: Seq<BatteryHistoryPoint>) -> Seq<Seq<char>> {
    let head = seq![Seq::<char>::empty(), bold("Drain history"@)];
    if history.len() < 2 {
        head + seq![muted("needs at least 2 samples"@)]
    } else {
        let points = charted(history);
        let scale = chart_scale(history);
        head + seq![
            chart_row("Active"@, active_drops(points), scale, "33"@),
            chart_row("Standby"@, standby_drops(points), scale, "36"@),
            row("Scale"@, muted(scale_text(scale))),
        ]
    }
}

/// Writes a loss.
pub fn format_drop(drop_percent: u64) -> (r: String)
    ensures
        r@ == drop_text(drop_percent),
{
    if drop_percent == 0 {
        "no battery used".to_string()
    } else {
        let mut out = decimal_string(drop_percent);
        out.append("% battery used");
        out
    }
}

/// The block that fills a cell to a level.
fn tick_char(level: u64) -> (c: char)
    ensures
        c == tick(level as int),
{
    if level == 0 {
        '▁'
    } else if level == 1 {
        '▂'
    } else if level == 2 {
        '▃'
    } else if level == 3 {
        '▄'
    } else if level == 4 {
        '▅'
    } else if level == 5 {
        '▆'
    } else if level == 6 {
        '▇'
    } else {
        '█'
    }
}

/// Writes one block for each value.
pub fn sparkline(values: &Vec<u64>, max_value: u64) -> (r: String)
    requires
        forall|i: int| 0 <= i < values@.len() ==> has_tick(#[trigger] values@[i], max_value),
    ensures
        r@ == sparkline_text(values@, max_value),
{
    let mut out = String::new();
    let mut i: usize = 0;
    while i < values.len()
        invariant
            i <= values@.len(),
            forall|j: int| 0 <= j < values@.len() ==> has_tick(#[trigger] values@[j], max_value),
            out@ == sparkline_text(values@, max_value).take(i as int),
        decreases values@.len() - i,
    {
        let value: u64 = values[i];
        assert(has_tick(values@[i as int], max_value));
        let level: u64 = if max_value == 0 {
            0
        } else {
            (value * 7 + max_value / 2) / max_value
        };
        out.push(tick_char(level));
        i += 1;
        assert(out@ =~= sparkline_text(values@, max_value).take(i as int));
    }
    assert(out@ =~= sparkline_text(values@, max_value));
    out
}

proof fn lemma_greatest(values: Seq<u64>)
    ensures
        greatest(values) >= 1,
        forall|i: int| 0 <= i < values.len() ==> #[trigger] values[i] <= greatest(values),
    decreases values.len(),
{
    if values.len() > 0 {
        lemma_greatest(values.drop_last());
        assert forall|i: int| 0 <= i < values.len() implies #[trigger] values[i] <= greatest(
            values,
        ) by {
            if i < values.len() - 1 {
                assert(values.drop_last()[i] == values[i]);
            }
        }
    }
}

/// A value that is at most the greatest one has a level from 0 to 7.
proof fn lemma_tick_level(value: u64, max_value: u64)
    requires
        value <= max_value,
        max_value >= 1,
    ensures
        0 <= tick_level(value, max_value) <= 7,
        value * 7 + max_value / 2 <= max_value * 7 + max_value / 2,
        value == max_value ==> tick_level(value, max_value) == 7,
        value == 0 ==> tick_level(value, max_value) == 0,
{
    let m = max_value as int;
    let half = m / 2;
    let x = value * 7 + half;
    assert(0 <= x / m <= 7) by (nonlinear_arith)
        requires
            0 <= x < 8 * m,
            0 < m,
    ;
    if value == max_value {
        assert(x / m == 7) by (nonlinear_arith)
            requires
                7 * m <= x < 8 * m,
                0 < m,
        ;
    }
    if value == 0 {
        assert(x / m == 0) by (nonlinear_arith)
            requires
                0 <= x < m,
                0 < m,
        ;
    }
}

/// The greatest of a list of numbers, and at least one.
fn find_greatest(values: &Vec<u64>) -> (r: u64)
    ensures
        r == greatest(values@),
{
    let mut r: u64 = 1;
    let mut i: usize = 0;
    assert(values@.take(0) =~= Seq::<u64>::empty());
    while i < values.len()
        invariant
            i <= values@.len(),
            r == greatest(values@.take(i as int)),
        decreases values@.len() - i,
    {
        assert(values@.take(i + 1).drop_last() =~= values@.take(i as int));
        if values[i] > r {
            r = values[i];
        }
        i += 1;
    }
    assert(values@.take(values@.len() as int) =~= values@);
    r
}

/// The losses of the points that the chart shows.
fn charted_drops(history: &Vec<BatteryHistoryPoint>) -> (r: (Vec<u64>, Vec<u64>))
    ensures
        r.0@ == active_drops(charted(history@)),
        r.1@ == standby_drops(charted(history@)),
{
    let start: usize = history.len().saturating_sub(CHART_WIDTH);
    let ghost points = charted(history@);
    assert(points =~= history@.skip(start as int));
    let mut active: Vec<u64> = Vec::new();
    let mut standby: Vec<u64> = Vec::new();
    let mut i: usize = start;
    while i < history.len()
        invariant
            start <= i <= history@.len(),
            points == history@.skip(start as int),
            active@ == active_drops(points).take(i - start),
            standby@ == standby_drops(points).take(i - start),
        decreases history@.len() - i,
    {
        active.push(history[i].active_drop_percent);
        standby.push(history[i].standby_drop_percent);
        i += 1;
        assert(active@ =~= active_drops(points).take(i - start));
        assert(standby@ =~= standby_drops(points).take(i - start));
    }
    assert(active@ =~= active_drops(points));
    assert(standby@ =~= standby_drops(points));
    (active, standby)
}

/// Whether a history can be charted.
pub fn can_chart(history: &Vec<BatteryHistoryPoint>) -> (r: bool)
    ensures
        r == is_chartable(history@),
{
    if history.len() < 2 {
        return true;
    }
    let (active, standby) = charted_drops(history);
    let greatest_active: u64 = find_greatest(&active);
    let greatest_standby: u64 = find_greatest(&standby);
    let scale: u64 = if greatest_active >= greatest_standby {
        greatest_active
    } else {
        greatest_standby
    };
    scale as u128 * 7 + (scale / 2) as u128 <= u64::MAX as u128
}

/// Writes a row of the chart.
fn format_chart_row(label: &str, drops: &Vec<u64>, scale: u64, code: &str) -> (r: String)
    requires
        drops@.len() > 0,
        scale >= 1,
        scale * 7 + scale / 2 <= u64::MAX,
        forall|i: int| 0 <= i < drops@.len() ==> #[trigger] drops@[i] <= scale,
    ensures
        r@ == chart_row(label@, drops@, scale, code@),
{
    assert forall|i: int| 0 <= i < drops@.len() implies has_tick(#[trigger] drops@[i], scale) by {
        lemma_tick_level(drops@[i], scale);
    }
    let line = sparkline(drops, scale);
    let mut value = color(line.as_str(), code);
    value.append(" ");
    value.append(color_bold(format_drop(drops[drops.len() - 1]).as_str()).as_str());
    display_row(label, value.as_str())
}

/// Draws the chart of a history.
pub fn format_drop_chart(history: &Vec<BatteryHistoryPoint>) -> (lines: Vec<String>)
    requires
        is_chartable(history@),
    ensures
        strings_view(lines@) == chart_lines(history@),
{
    let mut lines: Vec<String> = Vec::new();
    lines.push(String::new());
    lines.push(color_bold("Drain history"));
    if history.len() < 2 {
        lines.push(color_muted("needs at least 2 samples"));
        assert(strings_view(lines@) =~= chart_lines(history@));
        return lines;
    }
    let (active, standby) = charted_drops(history);
    let greatest_active: u64 = find_greatest(&active);
    let greatest_standby: u64 = find_greatest(&standby);
    proof {
        lemma_greatest(active@);
        lemma_greatest(standby@);
    }
    let scale: u64 = if greatest_active >= greatest_standby {
        greatest_active
    } else {
        greatest_standby
    };
    lines.push(format_chart_row("Active", &active, scale, "33"));
    lines.push(format_chart_row("Standby", &standby, scale, "36"));
    let mut label = "0% to ".to_string();
    push_decimal(&mut label, scale);
    label.append("% battery used");
    lines.push(display_row("Scale", color_muted(label.as_str()).as_str()));
    assert(strings_view(lines@) =~= chart_lines(history@));
    lines
}

// ---------------------------------------------------------------------------
// Reports
// ---------------------------------------------------------------------------

/// The rows of a state. The two figures are shown where the state has the rates.
pub open spec fn state_rows(state: StateView, figures: DrainFigures, updated_at: Seq<char>) -> Seq<
    Seq<char>,
> {
    let drain = shown(active_drain(state), figures.active);
    let standby = shown(standby_drain(state), figures.standby);
    seq![
        row("Battery active"@, bold(duration_text(state.counted_seconds))),
        row("Battery standby"@, bold(duration_text(state.standby_seconds))),
        row("Battery total"@, bold(duration_text(battery_seconds(state)))),
        row("Power state"@, badge(power_state_label(state.on_battery_only), state.on_battery_only)),
        row("Battery"@, meter_text(state.battery_capacity)),
        row("Last charged"@, colored(capacity_text(state.last_charged_capacity), capacity_code(state.last_charged_capacity))),
        row("Drain rate"@, colored(drain_text(drain), drain_code(drain))),
        row("Active drop"@, bold(drop_text(state.active_drop_percent))),
        row("Standby drop"@, bold(drop_text(state.standby_drop_percent))),
        row("Standby drain"@, colored(drain_text(standby), drain_code(standby))),
        row("Updated"@, muted(updated_at)),
    ]
}

/// The report of a state: its rows and the chart of its history.
pub open spec fn state_report(
    state: StateView,
    figures: DrainFigures,
    updated_at: Seq<char>,
) -> Seq<Seq<char>> {
    section("battery-up"@, state_rows(state, figures, updated_at)) + chart_lines(state.history)
}

/// The report of a snapshot and of the time counted so far.
pub open spec fn snapshot_report(snapshot: SnapshotView, counted_seconds: u64) -> Seq<Seq<char>> {
    section(
        "battery-up"@,
        seq![
            row("Session on battery"@, bold(duration_text(counted_seconds))),
            row(
                "Power state"@,
                badge(power_state_label(snapshot.on_battery_only), snapshot.on_battery_only),
            ),
            row("Battery"@, meter_text(snapshot.battery_capacity)),
        ],
    )
}

/// The help text.
pub open spec fn help_report() -> Seq<Seq<char>> {
    section("battery-up help"@, help_rows())
}

/// The rows of the help text.
pub open spec fn help_rows() -> Seq<Seq<char>> {
    seq![
        row("Usage"@, bold("battery-up [command] [options]"@)),
        row("watch"@, "measure this terminal session"@),
        row("daemon"@, "persist time for systemd"@),
        row("status"@, "show persisted total"@),
        row("reset"@, "reset persisted total"@),
        row("--interval <sec>"@, "refresh interval"@),
        row("--once"@, "print once and exit"@),
        row("--live"@, "refresh status in place"@),
        row("--json"@, "machine-readable output"@),
        row("-V, --version"@, "show version and exit"@),
        row("--state-file"@, "/var/lib/battery-up/state"@),
        row("--sysfs-root"@, "/sys/class/power_supply"@),
    ]
}

/// Appends lines to lines.
fn extend_lines(lines: &mut Vec<String>, more: &Vec<String>)
    ensures
        strings_view(final(lines)@) == strings_view(old(lines)@) + strings_view(more@),
{
    let ghost start = strings_view(lines@);
    let mut i: usize = 0;
    assert(start =~= start + strings_view(more@).take(0));
    while i < more.len()
        invariant
            i <= more@.len(),
            strings_view(lines@) == start + strings_view(more@).take(i as int),
        decreases more@.len() - i,
    {
        let ghost before = lines@;
        lines.push(more[i].clone());
        i += 1;
        assert(strings_view(lines@) =~= strings_view(before).push(more@[i - 1]@));
        assert(strings_view(lines@) =~= start + strings_view(more@).take(i as int));
    }
    assert(strings_view(more@).take(more@.len() as int) =~= strings_view(more@));
}

/// Writes the report of a state.
pub fn format_state_lines(state: &BatteryState, figures: &DrainFigures, updated_at: &str) -> (lines: Vec<
    String,
>)
    requires
        is_chartable(state.history@),
    ensures
        strings_view(lines@) == state_report(state@, *figures, updated_at@),
{
    let drain = shown_figure(drain_per_minute(state), &figures.active);
    let standby = shown_figure(standby_drain_per_minute(state), &figures.standby);
    let mut rows: Vec<String> = Vec::new();
    rows.push(display_row("Battery active", color_bold(format_duration(state.counted_seconds).as_str()).as_str()));
    rows.push(display_row("Battery standby", color_bold(format_duration(state.standby_seconds).as_str()).as_str()));
    rows.push(display_row("Battery total", color_bold(format_duration(total_battery_seconds(state)).as_str()).as_str()));
    rows.push(display_row("Power state", state_badge(state.state_label(), state.on_battery_only).as_str()));
    rows.push(display_row("Battery", capacity_meter(state.battery_capacity).as_str()));
    rows.push(display_row("Last charged", color_capacity(state.last_charged_capacity).as_str()));
    rows.push(display_row("Drain rate", color_drain(drain).as_str()));
    rows.push(display_row("Active drop", color_bold(format_drop(state.active_drop_percent).as_str()).as_str()));
    rows.push(display_row("Standby drop", color_bold(format_drop(state.standby_drop_percent).as_str()).as_str()));
    rows.push(display_row("Standby drain", color_drain(standby).as_str()));
    rows.push(display_row("Updated", color_muted(updated_at).as_str()));
    assert(strings_view(rows@) =~= state_rows(state@, *figures, updated_at@));
    let mut lines = section_lines("battery-up", &rows);
    let chart = format_drop_chart(&state.history);
    extend_lines(&mut lines, &chart);
    lines
}

/// Writes the report of a snapshot.
pub fn format_snapshot_lines(snapshot: &PowerSnapshot, counted_seconds: u64) -> (lines: Vec<String>)
    ensures
        strings_view(lines@) == snapshot_report(snapshot@, counted_seconds),
{
    let mut rows: Vec<String> = Vec::new();
    rows.push(
        display_row(
            "Session on battery",
            color_bold(format_duration(counted_seconds).as_str()).as_str(),
        ),
    );
    rows.push(
        display_row(
            "Power state",
            state_badge(snapshot.state_label(), snapshot.on_battery_only).as_str(),
        ),
    );
    rows.push(display_row("Battery", capacity_meter(snapshot.battery_capacity).as_str()));
    assert(strings_view(rows@) =~= seq![
        row("Session on battery"@, bold(duration_text(counted_seconds))),
        row(
            "Power state"@,
            badge(power_state_label(snapshot.on_battery_only), snapshot.on_battery_only),
        ),
        row("Battery"@, meter_text(snapshot.battery_capacity)),
    ]);
    section_lines("battery-up", &rows)
}

/// Writes the help text.
pub fn help_lines() -> (lines: Vec<String>)
    ensures
        strings_view(lines@) == help_report(),
{
    let mut rows: Vec<String> = Vec::new();
    rows.push(display_row("Usage", color_bold("battery-up [command] [options]").as_str()));
    rows.push(display_row("watch", "measure this terminal session"));
    rows.push(display_row("daemon", "persist time for systemd"));
    rows.push(display_row("status", "show persisted total"));
    rows.push(display_row("reset", "reset persisted total"));
    rows.push(display_row("--interval <sec>", "refresh interval"));
    rows.push(display_row("--once", "print once and exit"));
    rows.push(display_row("--live", "refresh status in place"));
    rows.push(display_row("--json", "machine-readable output"));
    rows.push(display_row("-V, --version", "show version and exit"));
    rows.push(display_row("--state-file", "/var/lib/battery-up/state"));
    rows.push(display_row("--sysfs-root", "/sys/class/power_supply"));
    assert(strings_view(rows@) =~= help_rows());
    section_lines("battery-up help", &rows)
}

// ---------------------------------------------------------------------------
// Laws
// ---------------------------------------------------------------------------

/// The chart shows one block for each of the latest points, the greatest loss as a full
/// block and no loss as the lowest one.
pub proof fn chart_spans_its_scale(history: Seq<BatteryHistoryPoint>, i: int)
    requires
        0 <= i < charted(history).len(),
    ensures
        ({
            let scale = chart_scale(history);
            let active = active_drops(charted(history));
            let standby = standby_drops(charted(history));
            &&& sparkline_text(active, scale).len() == charted(history).len() <= CHART_WIDTH
            &&& sparkline_text(standby, scale).len() == charted(history).len()
            &&& active[i] <= scale && standby[i] <= scale
            &&& active[i] == scale ==> sparkline_text(active, scale)[i] == '█'
            &&& standby[i] == scale ==> sparkline_text(standby, scale)[i] == '█'
            &&& active[i] == 0 ==> sparkline_text(active, scale)[i] == '▁'
            &&& standby[i] == 0 ==> sparkline_text(standby, scale)[i] == '▁'
        }),
{
    let scale = chart_scale(history);
    let active = active_drops(charted(history));
    let standby = standby_drops(charted(history));
    lemma_greatest(active);
    lemma_greatest(standby);
    lemma_tick_level(active[i], scale);
    lemma_tick_level(standby[i], scale);
}

/// A greater loss never shows a lower block.
pub proof fn blocks_grow_with_the_loss(smaller: u64, greater: u64, max_value: u64)
    requires
        smaller <= greater <= max_value,
    ensures
        tick_level(smaller, max_value) <= tick_level(greater, max_value) <= 7,
{
    if max_value > 0 {
        lemma_tick_level(greater, max_value);
        let m = max_value as int;
        let x = smaller * 7 + max_value / 2;
        let y = greater * 7 + max_value / 2;
        assert(x / m <= y / m) by (nonlinear_arith)
            requires
                x <= y,
                0 < m,
        ;
    }
}

/// Losses that are percentages can always be charted, as can any up to an eighth of the
/// greatest `u64`.
pub proof fn ordinary_losses_can_be_charted(history: Seq<BatteryHistoryPoint>)
    requires
        forall|i: int|
            0 <= i < history.len() ==> (#[trigger] history[i]).active_drop_percent <= u64::MAX / 8
                && history[i].standby_drop_percent <= u64::MAX / 8,
    ensures
        is_chartable(history),
{
    let active = active_drops(charted(history));
    let standby = standby_drops(charted(history));
    lemma_greatest_bound(active, u64::MAX / 8);
    lemma_greatest_bound(standby, u64::MAX / 8);
}

proof fn lemma_greatest_bound(values: Seq<u64>, bound: u64)
    requires
        bound >= 1,
        forall|i: int| 0 <= i < values.len() ==> #[trigger] values[i] <= bound,
    ensures
        greatest(values) <= bound,
    decreases values.len(),
{
    if values.len() > 0 {
        assert forall|i: int| 0 <= i < values.drop_last().len() implies #[trigger] values.drop_last()[i]
            <= bound by {
            assert(values[i] <= bound);
        }
        lemma_greatest_bound(values.drop_last(), bound);
    }
}

/// The level of a value is the one nearest to its share of the greatest one in sevenths, and a
/// half counts as more.
pub proof fn levels_are_the_nearest_sevenths(value: u64, max_value: u64)
    requires
        0 < max_value,
        value <= max_value,
    ensures
        ({
            let level = tick_level(value, max_value);
            &&& 0 <= level <= 7
            &&& -(max_value / 2) <= value * 7 - level * max_value <= max_value / 2
        }),
{
    lemma_tick_level(value, max_value);
    let m = max_value as int;
    let x = value * 7 + max_value / 2;
    vstd::arithmetic::div_mod::lemma_fundamental_div_mod(x, m);
    assert(m * (x / m) == (x / m) * m) by (nonlinear_arith);
}

/// The scale of the chart is the greatest loss, active or standby, among the latest eighteen
/// points, and at least one percent.
pub proof fn scale_is_the_greatest_loss_shown(history: Seq<BatteryHistoryPoint>, i: int)
    requires
        0 <= i < history.len(),
        history.len() - 18 <= i,
    ensures
        chart_scale(history) >= 1,
        history[i].active_drop_percent <= chart_scale(history),
        history[i].standby_drop_percent <= chart_scale(history),
        chart_scale(history) > 1 ==> exists|j: int|
            #![trigger history[j]]
            0 <= j < history.len() && history.len() - 18 <= j && (history[j].active_drop_percent
                == chart_scale(history) || history[j].standby_drop_percent == chart_scale(history)),
{
    let points = charted(history);
    let from = history.len() - points.len();
    let active = active_drops(points);
    let standby = standby_drops(points);
    lemma_greatest(active);
    lemma_greatest(standby);
    assert(points[i - from] == history[i]);
    assert(active[i - from] == history[i].active_drop_percent);
    assert(standby[i - from] == history[i].standby_drop_percent);
    if chart_scale(history) > 1 {
        let values = if greatest(active) >= greatest(standby) { active } else { standby };
        lemma_greatest_is_there(values);
        let k = choose|k: int| 0 <= k < values.len() && #[trigger] values[k] == greatest(values);
        assert(points[k] == history[from + k]);
    }
}

proof fn lemma_greatest_is_there(values: Seq<u64>)
    ensures
        greatest(values) > 1 ==> exists|k: int|
            0 <= k < values.len() && #[trigger] values[k] == greatest(values),
    decreases values.len(),
{
    if values.len() > 0 && greatest(values) > 1 {
        let earlier = values.drop_last();
        if values.last() == greatest(values) {
            assert(values[values.len() - 1] == greatest(values));
        } else {
            lemma_greatest_is_there(earlier);
            let k = choose|k: int| 0 <= k < earlier.len() && #[trigger] earlier[k] == greatest(
                earlier,
            );
            assert(values[k] == greatest(values));
        }
    }
}

/// A chart of two points or more has a row of active losses, a row of standby losses and the
/// scale. Each row has one block for each of the latest eighteen points, in their order, and ends
/// with the loss of the last point. A shorter history has no chart.
pub proof fn chart_rows_show_their_losses(history: Seq<BatteryHistoryPoint>)
    ensures
        chart_lines(history)[0].len() == 0,
        chart_lines(history)[1] == bold("Drain history"@),
        history.len() < 2 ==> chart_lines(history).len() == 3 && chart_lines(history)[2] == muted(
            "needs at least 2 samples"@,
        ),
        history.len() >= 2 ==> {
            let scale = chart_scale(history);
            let count = vstd::math::min(history.len() as int, 18);
            let from = history.len() - count;
            &&& chart_lines(history).len() == 5
            &&& chart_lines(history)[2] == row(
                "Active"@,
                colored(
                    Seq::new(
                        count as nat,
                        |k: int| tick(tick_level(history[from + k].active_drop_percent, scale)),
                    ),
                    "33"@,
                ) + " "@ + bold(drop_text(history.last().active_drop_percent)),
            )
            &&& chart_lines(history)[3] == row(
                "Standby"@,
                colored(
                    Seq::new(
                        count as nat,
                        |k: int| tick(tick_level(history[from + k].standby_drop_percent, scale)),
                    ),
                    "36"@,
                ) + " "@ + bold(drop_text(history.last().standby_drop_percent)),
            )
            &&& chart_lines(history)[4] == row(
                "Scale"@,
                muted("0% to "@ + crate::text::decimal(scale as nat) + "% battery used"@),
            )
        },
{
    if history.len() >= 2 {
        let scale = chart_scale(history);
        let count = vstd::math::min(history.len() as int, 18);
        let from = history.len() - count;
        let points = charted(history);
        assert(points =~= history.skip(from));
        assert(sparkline_text(active_drops(points), scale) =~= Seq::new(
            count as nat,
            |k: int| tick(tick_level(history[from + k].active_drop_percent, scale)),
        ));
        assert(sparkline_text(standby_drops(points), scale) =~= Seq::new(
            count as nat,
            |k: int| tick(tick_level(history[from + k].standby_drop_percent, scale)),
        ));
        assert(active_drops(points).last() == history.last().active_drop_percent);
        assert(standby_drops(points).last() == history.last().standby_drop_percent);
    }
}

/// No loss has words of its own, and any other is a number of percent.
pub proof fn losses_have_their_words(percent: u64)
    ensures
        drop_text(0) == "no battery used"@,
        percent > 0 ==> drop_text(percent) == crate::text::decimal(percent as nat)
            + "% battery used"@,
{
}

/// Every row of a report shows the field that its label names, and the chart stands below.
pub proof fn report_rows_show_their_fields(
    state: StateView,
    figures: DrainFigures,
    updated_at: Seq<char>,
)
    ensures
        ({
            let lines = state_report(state, figures, updated_at);
            let active = shown(active_drain(state), figures.active);
            let standby = shown(standby_drain(state), figures.standby);
            &&& lines[0] == bold("battery-up"@)
            &&& lines[1] == row("Battery active"@, bold(duration_text(state.counted_seconds)))
            &&& lines[2] == row("Battery standby"@, bold(duration_text(state.standby_seconds)))
            &&& lines[3] == row("Battery total"@, bold(duration_text(battery_seconds(state))))
            &&& lines[4] == row(
                "Power state"@,
                badge(power_state_label(state.on_battery_only), state.on_battery_only),
            )
            &&& lines[5] == row("Battery"@, meter_text(state.battery_capacity))
            &&& lines[6] == row(
                "Last charged"@,
                colored(
                    capacity_text(state.last_charged_capacity),
                    capacity_code(state.last_charged_capacity),
                ),
            )
            &&& lines[7] == row("Drain rate"@, colored(drain_text(active), drain_code(active)))
            &&& lines[8] == row("Active drop"@, bold(drop_text(state.active_drop_percent)))
            &&& lines[9] == row("Standby drop"@, bold(drop_text(state.standby_drop_percent)))
            &&& lines[10] == row("Standby drain"@, colored(drain_text(standby), drain_code(standby)))
            &&& lines[11] == row("Updated"@, muted(updated_at))
            &&& lines.skip(12) == chart_lines(state.history)
        }),
{
    let lines = state_report(state, figures, updated_at);
    assert(lines.skip(12) =~= chart_lines(state.history));
}

/// Every row of the report of a session shows what its label names.
pub proof fn session_rows_show_their_fields(snapshot: SnapshotView, counted_seconds: u64)
    ensures
        ({
            let lines = snapshot_report(snapshot, counted_seconds);
            &&& lines.len() == 4
            &&& lines[0] == bold("battery-up"@)
            &&& lines[1] == row("Session on battery"@, bold(duration_text(counted_seconds)))
            &&& lines[2] == row(
                "Power state"@,
                badge(power_state_label(snapshot.on_battery_only), snapshot.on_battery_only),
            )
            &&& lines[3] == row("Battery"@, meter_text(snapshot.battery_capacity))
        }),
{
}

/// Two states with the same report have counted the same time awake and asleep and lost the same
/// awake and asleep.
pub proof fn reports_tell_counters_apart(
    a: StateView,
    b: StateView,
    figures: DrainFigures,
    updated_at: Seq<char>,
)
    requires
        state_report(a, figures, updated_at) == state_report(b, figures, updated_at),
    ensures
        a.counted_seconds == b.counted_seconds,
        a.standby_seconds == b.standby_seconds,
        a.active_drop_percent == b.active_drop_percent,
        a.standby_drop_percent == b.standby_drop_percent,
{
    report_rows_show_their_fields(a, figures, updated_at);
    report_rows_show_their_fields(b, figures, updated_at);
    lemma_bold_row_is_injective(
        "Battery active"@,
        duration_text(a.counted_seconds),
        duration_text(b.counted_seconds),
    );
    crate::style::duration_text_is_injective(a.counted_seconds, b.counted_seconds);
    lemma_bold_row_is_injective(
        "Battery standby"@,
        duration_text(a.standby_seconds),
        duration_text(b.standby_seconds),
    );
    crate::style::duration_text_is_injective(a.standby_seconds, b.standby_seconds);
    lemma_bold_row_is_injective(
        "Active drop"@,
        drop_text(a.active_drop_percent),
        drop_text(b.active_drop_percent),
    );
    lemma_drop_text_is_injective(a.active_drop_percent, b.active_drop_percent);
    lemma_bold_row_is_injective(
        "Standby drop"@,
        drop_text(a.standby_drop_percent),
        drop_text(b.standby_drop_percent),
    );
    lemma_drop_text_is_injective(a.standby_drop_percent, b.standby_drop_percent);
}

proof fn lemma_same_middle(head: Seq<char>, a: Seq<char>, b: Seq<char>, tail: Seq<char>)
    requires
        head + a + tail == head + b + tail,
    ensures
        a == b,
{
    let x = head + a + tail;
    let y = head + b + tail;
    assert(x.len() == y.len());
    assert(x.subrange(head.len() as int, x.len() - tail.len()) =~= a);
    assert(y.subrange(head.len() as int, y.len() - tail.len()) =~= b);
}

proof fn lemma_bold_row_is_injective(label: Seq<char>, a: Seq<char>, b: Seq<char>)
    requires
        row(label, bold(a)) == row(label, bold(b)),
    ensures
        a == b,
{
    let head = muted(crate::text::padded(label, LABEL_WIDTH as nat)) + "  "@;
    let none = Seq::<char>::empty();
    assert(row(label, bold(a)) =~= head + bold(a) + none);
    assert(row(label, bold(b)) =~= head + bold(b) + none);
    lemma_same_middle(head, bold(a), bold(b), none);
    lemma_same_middle("\x1b["@ + "1"@ + "m"@, a, b, "\x1b[0m"@);
}

proof fn lemma_drop_text_is_injective(a: u64, b: u64)
    requires
        drop_text(a) == drop_text(b),
    ensures
        a == b,
{
    reveal_strlit("no battery used");
    crate::text::lemma_decimal_digits(a as nat);
    crate::text::lemma_decimal_digits(b as nat);
    assert("no battery used"@[0] == 'n');
    assert(crate::text::is_digit(crate::text::decimal(a as nat)[0]));
    assert(crate::text::is_digit(crate::text::decimal(b as nat)[0]));
    if a > 0 && b > 0 {
        let none = Seq::<char>::empty();
        let tail = "% battery used"@;
        assert(none + crate::text::decimal(a as nat) + tail =~= drop_text(a));
        assert(none + crate::text::decimal(b as nat) + tail =~= drop_text(b));
        lemma_same_middle(
            none,
            crate::text::decimal(a as nat),
            crate::text::decimal(b as nat),
            tail,
        );
        crate::text::decimal_is_injective(a as nat, b as nat);
    } else if a > 0 {
        assert(drop_text(a)[0] == crate::text::decimal(a as nat)[0]);
    } else if b > 0 {
        assert(drop_text(b)[0] == crate::text::decimal(b as nat)[0]);
    }
}

/// The help text names every command and every option, each with what it does or its usual value.
pub proof fn help_names_commands_and_options()
    ensures
        help_report().len() == 13,
        help_report()[0] == bold("battery-up help"@),
        help_report()[1] == row("Usage"@, bold("battery-up [command] [options]"@)),
        help_report()[2] == row("watch"@, "measure this terminal session"@),
        help_report()[3] == row("daemon"@, "persist time for systemd"@),
        help_report()[4] == row("status"@, "show persisted total"@),
        help_report()[5] == row("reset"@, "reset persisted total"@),
        help_report()[6] == row("--interval <sec>"@, "refresh interval"@),
        help_report()[7] == row("--once"@, "print once and exit"@),
        help_report()[8] == row("--live"@, "refresh status in place"@),
        help_report()[9] == row("--json"@, "machine-readable output"@),
        help_report()[10] == row("-V, --version"@, "show version and exit"@),
        help_report()[11] == row("--state-file"@, "/var/lib/battery-up/state"@),
        help_report()[12] == row("--sysfs-root"@, "/sys/class/power_supply"@),
{
}

} // verus!
