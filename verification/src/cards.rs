//! The framed layout: one box with a title in its upper edge.
//!
//! Rows are filled up by what they show on a terminal, so each is written twice: once with
//! its colours, and once without them to be measured.

use crate::drain::{
    active_drain, color_drain, drain_code, drain_json, drain_per_minute, drain_text, format_drain,
    json_option_figure, shown, shown_figure, DrainFigure,
};
use crate::json::{json_option_u8, optional_json};
use crate::sections::LABEL_WIDTH;
use crate::state::{BatteryState, StateView};
use crate::state_file::{boolean_text, format_boolean};
use crate::style::{
    badge, bold, capacity_code, capacity_meter, capacity_text, color_bold, color_capacity,
    color_muted, colored, duration_text, format_capacity, format_duration, meter_text, muted,
    plain_capacity_meter, plain_meter_text, state_badge,
};
use crate::supply::{power_state_label, PowerSnapshot, SnapshotView};
use crate::text::{decimal_string, pad_right, push_decimal, push_repeated, strings_view};
use vstd::prelude::*;

verus! {

/// How many columns a card takes.
pub const CARD_WIDTH: usize = 58;

/// How many columns a row takes inside of a card.
pub const INNER_WIDTH: usize = 54;

// ---------------------------------------------------------------------------
// Measuring
// ---------------------------------------------------------------------------

/// How many columns a text takes on a terminal, as `UnicodeWidthStr::width` of the crate
/// `unicode-width` says.
pub uninterp spec fn display_width(text: Seq<char>) -> usize;

/// Whether a text holds printable ASCII characters only.
pub open spec fn is_printable_ascii(text: Seq<char>) -> bool {
    forall|i: int| 0 <= i < text.len() ==> ' ' <= #[trigger] text[i] <= '~'
}

/// Measures a text with `UnicodeWidthStr::width` of the crate `unicode-width`. The result
/// depends on the text alone, and a text of printable ASCII characters takes one column for
/// each of them. Nothing more is claimed of other texts than that the result has a name.
#[verifier::external_body]
fn measure(text: &str) -> (columns: usize)
    ensures
        columns == display_width(text@),
        is_printable_ascii(text@) ==> columns == text@.len(),
{
    unicode_width::UnicodeWidthStr::width(text)
}

// ---------------------------------------------------------------------------
// Rows and cards
// ---------------------------------------------------------------------------

/// How many blanks fill a row up behind a value of so many columns.
pub open spec fn filling(columns: nat) -> nat {
    let used = LABEL_WIDTH + 2 + columns;
    if used < INNER_WIDTH {
        (INNER_WIDTH - used) as nat
    } else {
        0
    }
}

/// A label, a value behind it that takes so many columns, and blanks up to the inner width.
pub open spec fn card_row(label: Seq<char>, value: Seq<char>, columns: nat) -> Seq<char> {
    muted(crate::text::padded(label, LABEL_WIDTH as nat)) + "  "@ + value + crate::text::repeated(
        ' ',
        filling(columns),
    )
}

/// A row whose value takes the columns that its plain form is measured at.
pub open spec fn measured_row(label: Seq<char>, value: Seq<char>, plain: Seq<char>) -> Seq<char> {
    card_row(label, value, display_width(plain) as nat)
}

/// A row whose value has no colours.
pub open spec fn plain_row(label: Seq<char>, value: Seq<char>) -> Seq<char> {
    measured_row(label, value, value)
}

/// A title with a blank on either side.
pub open spec fn framed_title(title: Seq<char>) -> Seq<char> {
    " "@ + title + " "@
}

/// How many strokes fill the upper edge up behind a title of so many bytes.
pub open spec fn edge_filling(title_bytes: nat) -> nat {
    if title_bytes + 2 < CARD_WIDTH {
        (CARD_WIDTH - (title_bytes + 2)) as nat
    } else {
        0
    }
}

/// The upper edge of a card.
pub open spec fn upper_edge(title: Seq<char>) -> Seq<char> {
    "╭"@ + framed_title(title) + crate::text::repeated(
        '─',
        edge_filling(vstd::utf8::encode_utf8(framed_title(title)).len()),
    ) + "╮"@
}

/// The lower edge of a card.
pub open spec fn lower_edge() -> Seq<char> {
    "╰"@ + crate::text::repeated('─', (CARD_WIDTH - 2) as nat) + "╯"@
}

/// A row between the side edges of a card.
pub open spec fn side_edges(row: Seq<char>) -> Seq<char> {
    "│ "@ + row + " │"@
}

/// The rows of a card with its edges around them.
pub open spec fn card(title: Seq<char>, rows: Seq<Seq<char>>) -> Seq<Seq<char>> {
    seq![upper_edge(title)] + Seq::new(rows.len(), |i: int| side_edges(rows[i])) + seq![
        lower_edge(),
    ]
}

/// Writes a row around a value that takes so many columns.
pub fn padded_row(label: &str, styled_value: &str, columns: usize) -> (r: String)
    ensures
        r@ == card_row(label@, styled_value@, columns as nat),
{
    let blanks: usize = if columns < INNER_WIDTH - (LABEL_WIDTH + 2) {
        INNER_WIDTH - (LABEL_WIDTH + 2) - columns
    } else {
        0
    };
    let mut out = color_muted(pad_right(label, LABEL_WIDTH).as_str());
    out.append("  ");
    out.append(styled_value);
    push_repeated(&mut out, ' ', blanks);
    out
}

/// Writes a row, measuring the plain form of its value. A plain form of printable ASCII
/// characters counts one column for each of them.
pub fn display_row(label: &str, styled_value: &str, plain_value: &str) -> (r: String)
    ensures
        r@ == measured_row(label@, styled_value@, plain_value@),
        is_printable_ascii(plain_value@) ==> r@ == card_row(
            label@,
            styled_value@,
            plain_value@.len(),
        ),
{
    padded_row(label, styled_value, measure(plain_value))
}

/// Writes a row between the side edges.
fn format_side_edges(row: &str) -> (r: String)
    ensures
        r@ == side_edges(row@),
{
    let mut out = "│ ".to_string();
    out.append(row);
    out.append(" │");
    out
}

/// Puts the edges of a card around rows.
pub fn card_lines(title: &str, rows: &Vec<String>) -> (lines: Vec<String>)
    ensures
        strings_view(lines@) == card(title@, strings_view(rows@)),
{
    let mut framed = " ".to_string();
    framed.append(title);
    framed.append(" ");
    let title_bytes: usize = framed.as_str().as_bytes().len();
    let fill: usize = if title_bytes < CARD_WIDTH - 2 {
        CARD_WIDTH - 2 - title_bytes
    } else {
        0
    };
    let mut upper = "╭".to_string();
    upper.append(framed.as_str());
    push_repeated(&mut upper, '─', fill);
    upper.append("╮");
    let mut lines: Vec<String> = Vec::new();
    lines.push(upper);

    let ghost texts = strings_view(rows@);
    let ghost sides = Seq::new(texts.len(), |i: int| side_edges(texts[i]));
    let mut i: usize = 0;
    assert(strings_view(lines@) =~= seq![upper_edge(title@)] + sides.take(0));
    while i < rows.len()
        invariant
            i <= rows@.len(),
            texts == strings_view(rows@),
            sides == Seq::new(texts.len(), |i: int| side_edges(texts[i])),
            strings_view(lines@) == seq![upper_edge(title@)] + sides.take(i as int),
        decreases rows@.len() - i,
    {
        let ghost before = lines@;
        lines.push(format_side_edges(rows[i].as_str()));
        i += 1;
        assert(strings_view(lines@) =~= strings_view(before).push(sides[i - 1]));
        assert(strings_view(lines@) =~= seq![upper_edge(title@)] + sides.take(i as int));
    }
    assert(sides.take(rows@.len() as int) =~= sides);

    let mut lower = "╰".to_string();
    push_repeated(&mut lower, '─', CARD_WIDTH - 2);
    lower.append("╯");
    let ghost before = lines@;
    lines.push(lower);
    assert(strings_view(lines@) =~= strings_view(before).push(lower_edge()));
    assert(strings_view(lines@) =~= card(title@, texts));
    lines
}

// ---------------------------------------------------------------------------
// Reports
// ---------------------------------------------------------------------------

/// The rows of a state. The figure is shown where the state has the rate.
pub open spec fn state_rows(state: StateView, figure: Option<DrainFigure>) -> Seq<Seq<char>> {
    let drain = shown(active_drain(state), figure);
    let label = power_state_label(state.on_battery_only);
    let updated = crate::text::decimal(state.updated_at_unix as nat);
    seq![
        measured_row(
            "Total on battery"@,
            bold(duration_text(state.counted_seconds)),
            duration_text(state.counted_seconds),
        ),
        measured_row("Power state"@, badge(label, state.on_battery_only), "● "@ + label),
        measured_row(
            "Battery"@,
            meter_text(state.battery_capacity),
            plain_meter_text(state.battery_capacity),
        ),
        measured_row(
            "Last charged"@,
            colored(
                capacity_text(state.last_charged_capacity),
                capacity_code(state.last_charged_capacity),
            ),
            capacity_text(state.last_charged_capacity),
        ),
        measured_row(
            "Drain rate"@,
            colored(drain_text(drain), drain_code(drain)),
            drain_text(drain),
        ),
        measured_row("Updated"@, muted(updated), updated),
    ]
}

/// The card of a state.
pub open spec fn state_card(state: StateView, figure: Option<DrainFigure>) -> Seq<Seq<char>> {
    card("battery-up"@, state_rows(state, figure))
}

/// The rows of a snapshot and of the time counted so far.
pub open spec fn snapshot_rows(snapshot: SnapshotView, counted_seconds: u64) -> Seq<Seq<char>> {
    let label = power_state_label(snapshot.on_battery_only);
    seq![
        measured_row(
            "Session on battery"@,
            bold(duration_text(counted_seconds)),
            duration_text(counted_seconds),
        ),
        measured_row("Power state"@, badge(label, snapshot.on_battery_only), "● "@ + label),
        measured_row(
            "Battery"@,
            meter_text(snapshot.battery_capacity),
            plain_meter_text(snapshot.battery_capacity),
        ),
    ]
}

/// The card of a snapshot.
pub open spec fn snapshot_card(snapshot: SnapshotView, counted_seconds: u64) -> Seq<Seq<char>> {
    card("battery-up"@, snapshot_rows(snapshot, counted_seconds))
}

/// The rows of the help text.
pub open spec fn help_rows() -> Seq<Seq<char>> {
    seq![
        measured_row(
            "Usage"@,
            bold("battery-up [command] [options]"@),
            "battery-up [command] [options]"@,
        ),
        plain_row("watch"@, "measure this terminal session"@),
        plain_row("daemon"@, "persist time for systemd"@),
        plain_row("status"@, "show persisted total"@),
        plain_row("reset"@, "reset persisted total"@),
        plain_row("--interval <sec>"@, "refresh interval"@),
        plain_row("--once"@, "print once and exit"@),
        plain_row("--live"@, "refresh status in place"@),
        plain_row("--json"@, "machine-readable output"@),
        plain_row("--state-file"@, "/var/lib/battery-up/state"@),
        plain_row("--sysfs-root"@, "/sys/class/power_supply"@),
    ]
}

/// The JSON object of a state in short. The figure is shown where the state has the rate.
pub open spec fn short_state_json(state: StateView, figure: Option<DrainFigure>) -> Seq<char> {
    "{\"state\":\""@ + power_state_label(state.on_battery_only) + "\",\"on_battery_only\":"@
        + boolean_text(state.on_battery_only) + ",\"battery_capacity\":"@ + optional_json(
        state.battery_capacity,
    ) + ",\"last_charged_capacity\":"@ + optional_json(state.last_charged_capacity)
        + ",\"discharge_seconds\":"@ + crate::text::decimal(state.discharge_seconds as nat)
        + ",\"drain_per_minute\":"@ + drain_json(shown(active_drain(state), figure))
        + ",\"counted_seconds\":"@ + crate::text::decimal(state.counted_seconds as nat)
        + ",\"counted_hms\":\""@ + duration_text(state.counted_seconds)
        + "\",\"updated_at_unix\":"@ + crate::text::decimal(state.updated_at_unix as nat) + "}"@
}

/// The label of a power state with a dot before it.
fn dotted(label: &str) -> (r: String)
    ensures
        r@ == "● "@ + label@,
{
    let mut out = "● ".to_string();
    out.append(label);
    out
}

/// Writes the card of a state.
pub fn format_state_lines(state: &BatteryState, figure: &Option<DrainFigure>) -> (lines: Vec<String>)
    ensures
        strings_view(lines@) == state_card(state@, *figure),
{
    let drain = shown_figure(drain_per_minute(state), figure);
    let counted = format_duration(state.counted_seconds);
    let updated = decimal_string(state.updated_at_unix);
    let mut rows: Vec<String> = Vec::new();
    rows.push(
        display_row(
            "Total on battery",
            color_bold(counted.as_str()).as_str(),
            counted.as_str(),
        ),
    );
    rows.push(
        display_row(
            "Power state",
            state_badge(state.state_label(), state.on_battery_only).as_str(),
            dotted(state.state_label()).as_str(),
        ),
    );
    rows.push(
        display_row(
            "Battery",
            capacity_meter(state.battery_capacity).as_str(),
            plain_capacity_meter(state.battery_capacity).as_str(),
        ),
    );
    rows.push(
        display_row(
            "Last charged",
            color_capacity(state.last_charged_capacity).as_str(),
            format_capacity(state.last_charged_capacity).as_str(),
        ),
    );
    rows.push(
        display_row("Drain rate", color_drain(drain).as_str(), format_drain(drain).as_str()),
    );
    rows.push(display_row("Updated", color_muted(updated.as_str()).as_str(), updated.as_str()));
    assert(strings_view(rows@) =~= state_rows(state@, *figure));
    card_lines("battery-up", &rows)
}

/// Writes the card of a snapshot.
pub fn format_snapshot_lines(snapshot: &PowerSnapshot, counted_seconds: u64) -> (lines: Vec<String>)
    ensures
        strings_view(lines@) == snapshot_card(snapshot@, counted_seconds),
{
    let counted = format_duration(counted_seconds);
    let mut rows: Vec<String> = Vec::new();
    rows.push(
        display_row(
            "Session on battery",
            color_bold(counted.as_str()).as_str(),
            counted.as_str(),
        ),
    );
    rows.push(
        display_row(
            "Power state",
            state_badge(snapshot.state_label(), snapshot.on_battery_only).as_str(),
            dotted(snapshot.state_label()).as_str(),
        ),
    );
    rows.push(
        display_row(
            "Battery",
            capacity_meter(snapshot.battery_capacity).as_str(),
            plain_capacity_meter(snapshot.battery_capacity).as_str(),
        ),
    );
    assert(strings_view(rows@) =~= snapshot_rows(snapshot@, counted_seconds));
    card_lines("battery-up", &rows)
}

/// Writes the help text.
pub fn help_lines() -> (lines: Vec<String>)
    ensures
        strings_view(lines@) == card("battery-up help"@, help_rows()),
{
    let mut rows: Vec<String> = Vec::new();
    rows.push(
        display_row(
            "Usage",
            color_bold("battery-up [command] [options]").as_str(),
            "battery-up [command] [options]",
        ),
    );
    rows.push(display_row("watch", "measure this terminal session", "measure this terminal session"));
    rows.push(display_row("daemon", "persist time for systemd", "persist time for systemd"));
    rows.push(display_row("status", "show persisted total", "show persisted total"));
    rows.push(display_row("reset", "reset persisted total", "reset persisted total"));
    rows.push(display_row("--interval <sec>", "refresh interval", "refresh interval"));
    rows.push(display_row("--once", "print once and exit", "print once and exit"));
    rows.push(display_row("--live", "refresh status in place", "refresh status in place"));
    rows.push(display_row("--json", "machine-readable output", "machine-readable output"));
    rows.push(display_row("--state-file", "/var/lib/battery-up/state", "/var/lib/battery-up/state"));
    rows.push(display_row("--sysfs-root", "/sys/class/power_supply", "/sys/class/power_supply"));
    assert(strings_view(rows@) =~= help_rows());
    card_lines("battery-up help", &rows)
}

/// Writes the JSON object of a state in short.
pub fn format_state_json(state: &BatteryState, figure: &Option<DrainFigure>) -> (r: String)
    ensures
        r@ == short_state_json(state@, *figure),
{
    let drain = shown_figure(drain_per_minute(state), figure);
    let mut out = "{\"state\":\"".to_string();
    out.append(state.state_label());
    out.append("\",\"on_battery_only\":");
    out.append(format_boolean(state.on_battery_only));
    out.append(",\"battery_capacity\":");
    out.append(json_option_u8(state.battery_capacity).as_str());
    out.append(",\"last_charged_capacity\":");
    out.append(json_option_u8(state.last_charged_capacity).as_str());
    out.append(",\"discharge_seconds\":");
    push_decimal(&mut out, state.discharge_seconds);
    out.append(",\"drain_per_minute\":");
    out.append(json_option_figure(drain).as_str());
    out.append(",\"counted_seconds\":");
    push_decimal(&mut out, state.counted_seconds);
    out.append(",\"counted_hms\":\"");
    out.append(format_duration(state.counted_seconds).as_str());
    out.append("\",\"updated_at_unix\":");
    push_decimal(&mut out, state.updated_at_unix);
    out.append("}");
    out
}

// ---------------------------------------------------------------------------
// Laws
// ---------------------------------------------------------------------------

/// A row whose label and value fit takes exactly the inner width: label, gap, value and
/// blanks add up to it.
pub proof fn fitting_rows_fill_the_card(label: Seq<char>, columns: nat)
    requires
        label.len() <= LABEL_WIDTH,
        LABEL_WIDTH + 2 + columns <= INNER_WIDTH,
    ensures
        crate::text::padded(label, LABEL_WIDTH as nat).len() + 2 + columns + filling(columns)
            == INNER_WIDTH,
{
}

/// The lower edge has the width of the card, and so has the upper edge of a title that is
/// short and has one byte for each character.
pub proof fn edges_have_the_card_width(title: Seq<char>)
    requires
        vstd::utf8::is_ascii_chars(title),
        title.len() + 4 <= CARD_WIDTH,
    ensures
        upper_edge(title).len() == CARD_WIDTH,
        lower_edge().len() == CARD_WIDTH,
{
    reveal_strlit("╭");
    reveal_strlit("╮");
    reveal_strlit("╰");
    reveal_strlit("╯");
    reveal_strlit(" ");
    let framed = framed_title(title);
    assert(vstd::utf8::is_ascii_chars(framed));
    vstd::utf8::is_ascii_chars_encode_utf8(framed);
}

/// In the short JSON object of a state every name is followed by the value of its own field.
pub proof fn short_object_names_every_field(state: StateView, figure: Option<DrainFigure>)
    ensures
        ({
            let text = short_state_json(state, figure);
            &&& crate::text::has_part(
                text,
                "{\"state\":\""@ + power_state_label(state.on_battery_only) + "\",\"on_battery_only\":"@,
            )
            &&& crate::text::has_part(
                text,
                "\",\"on_battery_only\":"@ + boolean_text(state.on_battery_only) + ",\"battery_capacity\":"@,
            )
            &&& crate::text::has_part(
                text,
                ",\"battery_capacity\":"@ + optional_json(state.battery_capacity) + ",\"last_charged_capacity\":"@,
            )
            &&& crate::text::has_part(
                text,
                ",\"last_charged_capacity\":"@ + optional_json(state.last_charged_capacity) + ",\"discharge_seconds\":"@,
            )
            &&& crate::text::has_part(
                text,
                ",\"discharge_seconds\":"@ + crate::text::decimal(state.discharge_seconds as nat) + ",\"drain_per_minute\":"@,
            )
            &&& crate::text::has_part(
                text,
                ",\"drain_per_minute\":"@ + drain_json(shown(active_drain(state), figure)) + ",\"counted_seconds\":"@,
            )
            &&& crate::text::has_part(
                text,
                ",\"counted_seconds\":"@ + crate::text::decimal(state.counted_seconds as nat) + ",\"counted_hms\":\""@,
            )
            &&& crate::text::has_part(
                text,
                ",\"counted_hms\":\""@ + duration_text(state.counted_seconds) + "\",\"updated_at_unix\":"@,
            )
            &&& crate::text::has_part(
                text,
                "\",\"updated_at_unix\":"@ + crate::text::decimal(state.updated_at_unix as nat) + "}"@,
            )
        }),
{
    let none = Seq::<char>::empty();
    let t0 = "{\"state\":\""@;
    assert(none + t0 =~= t0);
    let v0 = power_state_label(state.on_battery_only);
    let t1 = t0 + v0;
    crate::text::lemma_parts_stay(t0, v0);
    let t2 = t1 + "\",\"on_battery_only\":"@;
    crate::text::lemma_parts_stay(t1, "\",\"on_battery_only\":"@);
    crate::text::lemma_part_stands(none, "{\"state\":\""@, v0, "\",\"on_battery_only\":"@);
    let v1 = boolean_text(state.on_battery_only);
    let t3 = t2 + v1;
    crate::text::lemma_parts_stay(t2, v1);
    let t4 = t3 + ",\"battery_capacity\":"@;
    crate::text::lemma_parts_stay(t3, ",\"battery_capacity\":"@);
    crate::text::lemma_part_stands(t1, "\",\"on_battery_only\":"@, v1, ",\"battery_capacity\":"@);
    let v2 = optional_json(state.battery_capacity);
    let t5 = t4 + v2;
    crate::text::lemma_parts_stay(t4, v2);
    let t6 = t5 + ",\"last_charged_capacity\":"@;
    crate::text::lemma_parts_stay(t5, ",\"last_charged_capacity\":"@);
    crate::text::lemma_part_stands(t3, ",\"battery_capacity\":"@, v2, ",\"last_charged_capacity\":"@);
    let v3 = optional_json(state.last_charged_capacity);
    let t7 = t6 + v3;
    crate::text::lemma_parts_stay(t6, v3);
    let t8 = t7 + ",\"discharge_seconds\":"@;
    crate::text::lemma_parts_stay(t7, ",\"discharge_seconds\":"@);
    crate::text::lemma_part_stands(t5, ",\"last_charged_capacity\":"@, v3, ",\"discharge_seconds\":"@);
    let v4 = crate::text::decimal(state.discharge_seconds as nat);
    let t9 = t8 + v4;
    crate::text::lemma_parts_stay(t8, v4);
    let t10 = t9 + ",\"drain_per_minute\":"@;
    crate::text::lemma_parts_stay(t9, ",\"drain_per_minute\":"@);
    crate::text::lemma_part_stands(t7, ",\"discharge_seconds\":"@, v4, ",\"drain_per_minute\":"@);
    let v5 = drain_json(shown(active_drain(state), figure));
    let t11 = t10 + v5;
    crate::text::lemma_parts_stay(t10, v5);
    let t12 = t11 + ",\"counted_seconds\":"@;
    crate::text::lemma_parts_stay(t11, ",\"counted_seconds\":"@);
    crate::text::lemma_part_stands(t9, ",\"drain_per_minute\":"@, v5, ",\"counted_seconds\":"@);
    let v6 = crate::text::decimal(state.counted_seconds as nat);
    let t13 = t12 + v6;
    crate::text::lemma_parts_stay(t12, v6);
    let t14 = t13 + ",\"counted_hms\":\""@;
    crate::text::lemma_parts_stay(t13, ",\"counted_hms\":\""@);
    crate::text::lemma_part_stands(t11, ",\"counted_seconds\":"@, v6, ",\"counted_hms\":\""@);
    let v7 = duration_text(state.counted_seconds);
    let t15 = t14 + v7;
    crate::text::lemma_parts_stay(t14, v7);
    let t16 = t15 + "\",\"updated_at_unix\":"@;
    crate::text::lemma_parts_stay(t15, "\",\"updated_at_unix\":"@);
    crate::text::lemma_part_stands(t13, ",\"counted_hms\":\""@, v7, "\",\"updated_at_unix\":"@);
    let v8 = crate::text::decimal(state.updated_at_unix as nat);
    let t17 = t16 + v8;
    crate::text::lemma_parts_stay(t16, v8);
    let t18 = t17 + "}"@;
    crate::text::lemma_parts_stay(t17, "}"@);
    crate::text::lemma_part_stands(t15, "\",\"updated_at_unix\":"@, v8, "}"@);
    assert(short_state_json(state, figure) == t18);
}

/// The card of a state has an edge, six rows and an edge. Every row shows the field that its label
/// names, and is measured without its colours.
pub proof fn state_card_rows_show_their_fields(state: StateView, figure: Option<DrainFigure>)
    ensures
        ({
            let lines = state_card(state, figure);
            let counted = duration_text(state.counted_seconds);
            let label = power_state_label(state.on_battery_only);
            let charged = capacity_text(state.last_charged_capacity);
            let drain = shown(active_drain(state), figure);
            let updated = crate::text::decimal(state.updated_at_unix as nat);
            &&& lines.len() == 8
            &&& lines[0] == upper_edge("battery-up"@)
            &&& lines[1] == side_edges(
                card_row("Total on battery"@, bold(counted), display_width(counted) as nat),
            )
            &&& lines[2] == side_edges(
                card_row(
                    "Power state"@,
                    badge(label, state.on_battery_only),
                    display_width("● "@ + label) as nat,
                ),
            )
            &&& lines[3] == side_edges(
                card_row(
                    "Battery"@,
                    meter_text(state.battery_capacity),
                    display_width(plain_meter_text(state.battery_capacity)) as nat,
                ),
            )
            &&& lines[4] == side_edges(
                card_row(
                    "Last charged"@,
                    colored(charged, capacity_code(state.last_charged_capacity)),
                    display_width(charged) as nat,
                ),
            )
            &&& lines[5] == side_edges(
                card_row(
                    "Drain rate"@,
                    colored(drain_text(drain), drain_code(drain)),
                    display_width(drain_text(drain)) as nat,
                ),
            )
            &&& lines[6] == side_edges(
                card_row("Updated"@, muted(updated), display_width(updated) as nat),
            )
            &&& lines[7] == lower_edge()
        }),
{
}

/// The card of a session has an edge, three rows and an edge. Every row shows what its label
/// names, and is measured without its colours.
pub proof fn session_card_rows_show_their_fields(snapshot: SnapshotView, counted_seconds: u64)
    ensures
        ({
            let lines = snapshot_card(snapshot, counted_seconds);
            let counted = duration_text(counted_seconds);
            let label = power_state_label(snapshot.on_battery_only);
            &&& lines.len() == 5
            &&& lines[0] == upper_edge("battery-up"@)
            &&& lines[1] == side_edges(
                card_row("Session on battery"@, bold(counted), display_width(counted) as nat),
            )
            &&& lines[2] == side_edges(
                card_row(
                    "Power state"@,
                    badge(label, snapshot.on_battery_only),
                    display_width("● "@ + label) as nat,
                ),
            )
            &&& lines[3] == side_edges(
                card_row(
                    "Battery"@,
                    meter_text(snapshot.battery_capacity),
                    display_width(plain_meter_text(snapshot.battery_capacity)) as nat,
                ),
            )
            &&& lines[4] == lower_edge()
        }),
{
}

/// A row behind a label that fits is filled up with blanks to 54 columns, and not at all where its
/// value takes more than is left.
pub proof fn blanks_fill_the_row(columns: nat)
    ensures
        filling(columns) == vstd::math::max(0, 54 - 18 - 2 - columns),
        CARD_WIDTH == 58,
{
}

/// The help text of this layout names the commands and options of the other one but for the
/// version, with the same words and as far filled up as they are wide.
pub proof fn help_names_the_same_commands_and_options(i: int)
    requires
        0 <= i < help_rows().len(),
    ensures
        help_rows().len() == 11,
        ({
            let other = crate::sections::help_rows()[if i < 9 { i } else { i + 1 }];
            exists|columns: nat|
                #![trigger filling(columns)]
                help_rows()[i] == other + crate::text::repeated(' ', filling(columns))
        }),
{
    assert(help_rows()[0] == crate::sections::help_rows()[0] + crate::text::repeated(
        ' ',
        filling(display_width("battery-up [command] [options]"@) as nat),
    ));
    assert(help_rows()[1] == crate::sections::help_rows()[1] + crate::text::repeated(
        ' ',
        filling(display_width("measure this terminal session"@) as nat),
    ));
    assert(help_rows()[2] == crate::sections::help_rows()[2] + crate::text::repeated(
        ' ',
        filling(display_width("persist time for systemd"@) as nat),
    ));
    assert(help_rows()[3] == crate::sections::help_rows()[3] + crate::text::repeated(
        ' ',
        filling(display_width("show persisted total"@) as nat),
    ));
    assert(help_rows()[4] == crate::sections::help_rows()[4] + crate::text::repeated(
        ' ',
        filling(display_width("reset persisted total"@) as nat),
    ));
    assert(help_rows()[5] == crate::sections::help_rows()[5] + crate::text::repeated(
        ' ',
        filling(display_width("refresh interval"@) as nat),
    ));
    assert(help_rows()[6] == crate::sections::help_rows()[6] + crate::text::repeated(
        ' ',
        filling(display_width("print once and exit"@) as nat),
    ));
    assert(help_rows()[7] == crate::sections::help_rows()[7] + crate::text::repeated(
        ' ',
        filling(display_width("refresh status in place"@) as nat),
    ));
    assert(help_rows()[8] == crate::sections::help_rows()[8] + crate::text::repeated(
        ' ',
        filling(display_width("machine-readable output"@) as nat),
    ));
    assert(help_rows()[9] == crate::sections::help_rows()[10] + crate::text::repeated(
        ' ',
        filling(display_width("/var/lib/battery-up/state"@) as nat),
    ));
    assert(help_rows()[10] == crate::sections::help_rows()[11] + crate::text::repeated(
        ' ',
        filling(display_width("/sys/class/power_supply"@) as nat),
    ));
}

} // verus!
