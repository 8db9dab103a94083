//! The machine-readable output.

use crate::drain::{
    active_drain, battery_seconds, drain_json, drain_per_minute, json_option_figure, shown,
    shown_figure, standby_drain, standby_drain_per_minute, total_battery_seconds, DrainFigures,
};
use crate::state::{BatteryHistoryPoint, BatteryState, StateView};
use crate::state_file::{boolean_text, format_boolean};
use crate::style::{duration_text, format_duration};
use crate::supply::{power_state_label, PowerSnapshot, SnapshotView};
use crate::text::{decimal_string, push_decimal};
use vstd::prelude::*;

verus! {

/// An optional percentage in JSON.
pub open spec fn optional_json(value: Option<u8>) -> Seq<char> {
    match value {
        Some(n) => crate::text::decimal(n as nat),
        None => "null"@,
    }
}

/// A history point in JSON.
pub open spec fn point_json(point: BatteryHistoryPoint) -> Seq<char> {
    "{\"updated_at_unix\":"@ + crate::text::decimal(point.updated_at_unix as nat)
        + ",\"active_drop_percent\":"@ + crate::text::decimal(point.active_drop_percent as nat)
        + ",\"standby_drop_percent\":"@ + crate::text::decimal(point.standby_drop_percent as nat)
        + ",\"battery_capacity\":"@ + optional_json(point.battery_capacity) + "}"@
}

/// The history points in JSON, one by one.
pub open spec fn points_json(history: Seq<BatteryHistoryPoint>) -> Seq<Seq<char>> {
    Seq::new(history.len(), |i: int| point_json(history[i]))
}

/// The elements of a history in JSON.
pub open spec fn history_json(history: Seq<BatteryHistoryPoint>) -> Seq<char> {
    crate::text::joined(points_json(history), ","@)
}

/// The JSON object of a state. The two figures are shown where the state has the rates.
pub open spec fn state_json(state: StateView, figures: DrainFigures) -> Seq<char> {
    "{\"state\":\""@ + power_state_label(state.on_battery_only) + "\",\"on_battery_only\":"@
        + boolean_text(state.on_battery_only) + ",\"battery_capacity\":"@ + optional_json(
        state.battery_capacity,
    ) + ",\"last_charged_capacity\":"@ + optional_json(state.last_charged_capacity)
        + ",\"discharge_seconds\":"@ + crate::text::decimal(state.discharge_seconds as nat)
        + ",\"drain_per_minute\":"@ + drain_json(shown(active_drain(state), figures.active))
        + ",\"standby_seconds\":"@ + crate::text::decimal(state.standby_seconds as nat)
        + ",\"standby_hms\":\""@ + duration_text(state.standby_seconds)
        + "\",\"active_drop_percent\":"@ + crate::text::decimal(state.active_drop_percent as nat)
        + ",\"standby_drop_percent\":"@ + crate::text::decimal(state.standby_drop_percent as nat)
        + ",\"standby_drain_per_minute\":"@ + drain_json(
        shown(standby_drain(state), figures.standby),
    ) + ",\"counted_seconds\":"@ + crate::text::decimal(state.counted_seconds as nat)
        + ",\"counted_hms\":\""@ + duration_text(state.counted_seconds)
        + "\",\"total_battery_seconds\":"@ + crate::text::decimal(battery_seconds(state) as nat)
        + ",\"total_battery_hms\":\""@ + duration_text(battery_seconds(state))
        + "\",\"updated_at_unix\":"@ + crate::text::decimal(state.updated_at_unix as nat)
        + ",\"history\":["@ + history_json(state.history) + "]}"@
}

/// The JSON object of a snapshot and of the time counted so far.
pub open spec fn snapshot_json(
    snapshot: SnapshotView,
    counted_seconds: u64,
    final_line: bool,
) -> Seq<char> {
    "{\"state\":\""@ + power_state_label(snapshot.on_battery_only) + "\",\"on_battery_only\":"@
        + boolean_text(snapshot.on_battery_only) + ",\"battery_capacity\":"@ + optional_json(
        snapshot.battery_capacity,
    ) + ",\"counted_seconds\":"@ + crate::text::decimal(counted_seconds as nat)
        + ",\"counted_hms\":\""@ + duration_text(counted_seconds) + "\",\"final\":"@ + boolean_text(
        final_line,
    ) + "}"@
}

/// Writes an optional percentage in JSON.
pub fn json_option_u8(value: Option<u8>) -> (r: String)
    ensures
        r@ == optional_json(value),
{
    match value {
        Some(n) => decimal_string(n as u64),
        None => "null".to_string(),
    }
}

/// Writes a history point in JSON.
fn format_point_json(point: &BatteryHistoryPoint) -> (r: String)
    ensures
        r@ == point_json(*point),
{
    let mut out = "{\"updated_at_unix\":".to_string();
    push_decimal(&mut out, point.updated_at_unix);
    out.append(",\"active_drop_percent\":");
    push_decimal(&mut out, point.active_drop_percent);
    out.append(",\"standby_drop_percent\":");
    push_decimal(&mut out, point.standby_drop_percent);
    out.append(",\"battery_capacity\":");
    out.append(json_option_u8(point.battery_capacity).as_str());
    out.append("}");
    out
}

/// Writes the elements of a history in JSON.
pub fn format_history_json(history: &Vec<BatteryHistoryPoint>) -> (r: String)
    ensures
        r@ == history_json(history@),
{
    let ghost points = points_json(history@);
    let mut out = String::new();
    let mut i: usize = 0;
    assert(points.take(0) =~= Seq::<Seq<char>>::empty());
    while i < history.len()
        invariant
            i <= history@.len(),
            points == points_json(history@),
            out@ == crate::text::joined(points.take(i as int), ","@),
        decreases history@.len() - i,
    {
        assert(points.take(i + 1).drop_last() =~= points.take(i as int));
        if i > 0 {
            out.append(",");
        }
        out.append(format_point_json(&history[i]).as_str());
        i += 1;
        assert(out@ =~= crate::text::joined(points.take(i as int), ","@));
    }
    assert(points.take(history@.len() as int) =~= points);
    out
}

/// Writes the JSON object of a state.
pub fn format_state_json(state: &BatteryState, figures: &DrainFigures) -> (r: String)
    ensures
        r@ == state_json(state@, *figures),
{
    let drain = shown_figure(drain_per_minute(state), &figures.active);
    let standby = shown_figure(standby_drain_per_minute(state), &figures.standby);
    let mut out = "{\"state\":\"".to_string();
    out.append(state.state_label());
    out.append("\",\"on_battery_only\":");
    out.append(format_boolean(state.on_battery_only));
    out.append(",\"battery_capacity\":");
    out.append(json_option_u8(state.battery_capacity).as_str());
    out.append(",\"last_charged_capacity\":");
    out.append(json_option_u8(state.last_charged_capacity).as_str());
    out.append(",\"discharge_seconds\":");
    push_decimal(&mut out, state.discharge_seconds);
    out.append(",\"drain_per_minute\":");
    out.append(json_option_figure(drain).as_str());
    out.append(",\"standby_seconds\":");
    push_decimal(&mut out, state.standby_seconds);
    out.append(",\"standby_hms\":\"");
    out.append(format_duration(state.standby_seconds).as_str());
    out.append("\",\"active_drop_percent\":");
    push_decimal(&mut out, state.active_drop_percent);
    out.append(",\"standby_drop_percent\":");
    push_decimal(&mut out, state.standby_drop_percent);
    out.append(",\"standby_drain_per_minute\":");
    out.append(json_option_figure(standby).as_str());
    out.append(",\"counted_seconds\":");
    push_decimal(&mut out, state.counted_seconds);
    out.append(",\"counted_hms\":\"");
    out.append(format_duration(state.counted_seconds).as_str());
    out.append("\",\"total_battery_seconds\":");
    push_decimal(&mut out, total_battery_seconds(state));
    out.append(",\"total_battery_hms\":\"");
    out.append(format_duration(total_battery_seconds(state)).as_str());
    out.append("\",\"updated_at_unix\":");
    push_decimal(&mut out, state.updated_at_unix);
    out.append(",\"history\":[");
    out.append(format_history_json(&state.history).as_str());
    out.append("]}");
    out
}

/// Writes the JSON object of a snapshot.
pub fn format_snapshot_json(
    snapshot: &PowerSnapshot,
    counted_seconds: u64,
    final_line: bool,
) -> (r: String)
    ensures
        r@ == snapshot_json(snapshot@, counted_seconds, final_line),
{
    let mut out = "{\"state\":\"".to_string();
    out.append(snapshot.state_label());
    out.append("\",\"on_battery_only\":");
    out.append(format_boolean(snapshot.on_battery_only));
    out.append(",\"battery_capacity\":");
    out.append(json_option_u8(snapshot.battery_capacity).as_str());
    out.append(",\"counted_seconds\":");
    push_decimal(&mut out, counted_seconds);
    out.append(",\"counted_hms\":\"");
    out.append(format_duration(counted_seconds).as_str());
    out.append("\",\"final\":");
    out.append(format_boolean(final_line));
    out.append("}");
    out
}

// ---------------------------------------------------------------------------
// Laws
// ---------------------------------------------------------------------------

/// In the JSON object of a state every name is followed by the value of its own field.
pub proof fn state_object_names_every_field(state: StateView, figures: DrainFigures)
    ensures
        ({
            let text = state_json(state, figures);
            &&& crate::text::has_part(
                text,
                "{\"state\":\""@ + power_state_label(state.on_battery_only) + "\",\"on_battery_only\":"@,
            )
            &&& crate::text::has_part(
                text,
                "\",\"on_battery_only\":"@ + boolean_text(state.on_battery_only) + ",\"battery_capacity\":"@,
            )
            &&& crate::text::has_part(
                text,
                ",\"battery_capacity\":"@ + optional_json(state.battery_capacity) + ",\"last_charged_capacity\":"@,
            )
            &&& crate::text::has_part(
                text,
                ",\"last_charged_capacity\":"@ + optional_json(state.last_charged_capacity) + ",\"discharge_seconds\":"@,
            )
            &&& crate::text::has_part(
                text,
                ",\"discharge_seconds\":"@ + crate::text::decimal(state.discharge_seconds as nat) + ",\"drain_per_minute\":"@,
            )
            &&& crate::text::has_part(
                text,
                ",\"drain_per_minute\":"@ + drain_json(shown(active_drain(state), figures.active)) + ",\"standby_seconds\":"@,
            )
            &&& crate::text::has_part(
                text,
                ",\"standby_seconds\":"@ + crate::text::decimal(state.standby_seconds as nat) + ",\"standby_hms\":\""@,
            )
            &&& crate::text::has_part(
                text,
                ",\"standby_hms\":\""@ + duration_text(state.standby_seconds) + "\",\"active_drop_percent\":"@,
            )
            &&& crate::text::has_part(
                text,
                "\",\"active_drop_percent\":"@ + crate::text::decimal(state.active_drop_percent as nat) + ",\"standby_drop_percent\":"@,
            )
            &&& crate::text::has_part(
                text,
                ",\"standby_drop_percent\":"@ + crate::text::decimal(state.standby_drop_percent as nat) + ",\"standby_drain_per_minute\":"@,
            )
            &&& crate::text::has_part(
                text,
                ",\"standby_drain_per_minute\":"@ + drain_json(shown(standby_drain(state), figures.standby)) + ",\"counted_seconds\":"@,
            )
            &&& crate::text::has_part(
                text,
                ",\"counted_seconds\":"@ + crate::text::decimal(state.counted_seconds as nat) + ",\"counted_hms\":\""@,
            )
            &&& crate::text::has_part(
                text,
                ",\"counted_hms\":\""@ + duration_text(state.counted_seconds) + "\",\"total_battery_seconds\":"@,
            )
            &&& crate::text::has_part(
                text,
                "\",\"total_battery_seconds\":"@ + crate::text::decimal(battery_seconds(state) as nat) + ",\"total_battery_hms\":\""@,
            )
            &&& crate::text::has_part(
                text,
                ",\"total_battery_hms\":\""@ + duration_text(battery_seconds(state)) + "\",\"updated_at_unix\":"@,
            )
            &&& crate::text::has_part(
                text,
                "\",\"updated_at_unix\":"@ + crate::text::decimal(state.updated_at_unix as nat) + ",\"history\":["@,
            )
            &&& crate::text::has_part(
                text,
                ",\"history\":["@ + history_json(state.history) + "]}"@,
            )
        }),
{
    let none = Seq::<char>::empty();
    let t0 = "{\"state\":\""@;
    assert(none + t0 =~= t0);
    let v0 = power_state_label(state.on_battery_only);
    let t1 = t0 + v0;
    crate::text::lemma_parts_stay(t0, v0);
    let t2 = t1 + "\",\"on_battery_only\":"@;
    crate::text::lemma_parts_stay(t1, "\",\"on_battery_only\":"@);
    crate::text::lemma_part_stands(none, "{\"state\":\""@, v0, "\",\"on_battery_only\":"@);
    let v1 = boolean_text(state.on_battery_only);
    let t3 = t2 + v1;
    crate::text::lemma_parts_stay(t2, v1);
    let t4 = t3 + ",\"battery_capacity\":"@;
    crate::text::lemma_parts_stay(t3, ",\"battery_capacity\":"@);
    crate::text::lemma_part_stands(t1, "\",\"on_battery_only\":"@, v1, ",\"battery_capacity\":"@);
    let v2 = optional_json(state.battery_capacity);
    let t5 = t4 + v2;
    crate::text::lemma_parts_stay(t4, v2);
    let t6 = t5 + ",\"last_charged_capacity\":"@;
    crate::text::lemma_parts_stay(t5, ",\"last_charged_capacity\":"@);
    crate::text::lemma_part_stands(t3, ",\"battery_capacity\":"@, v2, ",\"last_charged_capacity\":"@);
    let v3 = optional_json(state.last_charged_capacity);
    let t7 = t6 + v3;
    crate::text::lemma_parts_stay(t6, v3);
    let t8 = t7 + ",\"discharge_seconds\":"@;
    crate::text::lemma_parts_stay(t7, ",\"discharge_seconds\":"@);
    crate::text::lemma_part_stands(t5, ",\"last_charged_capacity\":"@, v3, ",\"discharge_seconds\":"@);
    let v4 = crate::text::decimal(state.discharge_seconds as nat);
    let t9 = t8 + v4;
    crate::text::lemma_parts_stay(t8, v4);
    let t10 = t9 + ",\"drain_per_minute\":"@;
    crate::text::lemma_parts_stay(t9, ",\"drain_per_minute\":"@);
    crate::text::lemma_part_stands(t7, ",\"discharge_seconds\":"@, v4, ",\"drain_per_minute\":"@);
    let v5 = drain_json(shown(active_drain(state), figures.active));
    let t11 = t10 + v5;
    crate::text::lemma_parts_stay(t10, v5);
    let t12 = t11 + ",\"standby_seconds\":"@;
    crate::text::lemma_parts_stay(t11, ",\"standby_seconds\":"@);
    crate::text::lemma_part_stands(t9, ",\"drain_per_minute\":"@, v5, ",\"standby_seconds\":"@);
    let v6 = crate::text::decimal(state.standby_seconds as nat);
    let t13 = t12 + v6;
    crate::text::lemma_parts_stay(t12, v6);
    let t14 = t13 + ",\"standby_hms\":\""@;
    crate::text::lemma_parts_stay(t13, ",\"standby_hms\":\""@);
    crate::text::lemma_part_stands(t11, ",\"standby_seconds\":"@, v6, ",\"standby_hms\":\""@);
    let v7 = duration_text(state.standby_seconds);
    let t15 = t14 + v7;
    crate::text::lemma_parts_stay(t14, v7);
    let t16 = t15 + "\",\"active_drop_percent\":"@;
    crate::text::lemma_parts_stay(t15, "\",\"active_drop_percent\":"@);
    crate::text::lemma_part_stands(t13, ",\"standby_hms\":\""@, v7, "\",\"active_drop_percent\":"@);
    let v8 = crate::text::decimal(state.active_drop_percent as nat);
    let t17 = t16 + v8;
    crate::text::lemma_parts_stay(t16, v8);
    let t18 = t17 + ",\"standby_drop_percent\":"@;
    crate::text::lemma_parts_stay(t17, ",\"standby_drop_percent\":"@);
    crate::text::lemma_part_stands(t15, "\",\"active_drop_percent\":"@, v8, ",\"standby_drop_percent\":"@);
    let v9 = crate::text::decimal(state.standby_drop_percent as nat);
    let t19 = t18 + v9;
    crate::text::lemma_parts_stay(t18, v9);
    let t20 = t19 + ",\"standby_drain_per_minute\":"@;
    crate::text::lemma_parts_stay(t19, ",\"standby_drain_per_minute\":"@);
    crate::text::lemma_part_stands(t17, ",\"standby_drop_percent\":"@, v9, ",\"standby_drain_per_minute\":"@);
    let v10 = drain_json(shown(standby_drain(state), figures.standby));
    let t21 = t20 + v10;
    crate::text::lemma_parts_stay(t20, v10);
    let t22 = t21 + ",\"counted_seconds\":"@;
    crate::text::lemma_parts_stay(t21, ",\"counted_seconds\":"@);
    crate::text::lemma_part_stands(t19, ",\"standby_drain_per_minute\":"@, v10, ",\"counted_seconds\":"@);
    let v11 = crate::text::decimal(state.counted_seconds as nat);
    let t23 = t22 + v11;
    crate::text::lemma_parts_stay(t22, v11);
    let t24 = t23 + ",\"counted_hms\":\""@;
    crate::text::lemma_parts_stay(t23, ",\"counted_hms\":\""@);
    crate::text::lemma_part_stands(t21, ",\"counted_seconds\":"@, v11, ",\"counted_hms\":\""@);
    let v12 = duration_text(state.counted_seconds);
    let t25 = t24 + v12;
    crate::text::lemma_parts_stay(t24, v12);
    let t26 = t25 + "\",\"total_battery_seconds\":"@;
    crate::text::lemma_parts_stay(t25, "\",\"total_battery_seconds\":"@);
    crate::text::lemma_part_stands(t23, ",\"counted_hms\":\""@, v12, "\",\"total_battery_seconds\":"@);
    let v13 = crate::text::decimal(battery_seconds(state) as nat);
    let t27 = t26 + v13;
    crate::text::lemma_parts_stay(t26, v13);
    let t28 = t27 + ",\"total_battery_hms\":\""@;
    crate::text::lemma_parts_stay(t27, ",\"total_battery_hms\":\""@);
    crate::text::lemma_part_stands(t25, "\",\"total_battery_seconds\":"@, v13, ",\"total_battery_hms\":\""@);
    let v14 = duration_text(battery_seconds(state));
    let t29 = t28 + v14;
    crate::text::lemma_parts_stay(t28, v14);
    let t30 = t29 + "\",\"updated_at_unix\":"@;
    crate::text::lemma_parts_stay(t29, "\",\"updated_at_unix\":"@);
    crate::text::lemma_part_stands(t27, ",\"total_battery_hms\":\""@, v14, "\",\"updated_at_unix\":"@);
    let v15 = crate::text::decimal(state.updated_at_unix as nat);
    let t31 = t30 + v15;
    crate::text::lemma_parts_stay(t30, v15);
    let t32 = t31 + ",\"history\":["@;
    crate::text::lemma_parts_stay(t31, ",\"history\":["@);
    crate::text::lemma_part_stands(t29, "\",\"updated_at_unix\":"@, v15, ",\"history\":["@);
    let v16 = history_json(state.history);
    let t33 = t32 + v16;
    crate::text::lemma_parts_stay(t32, v16);
    let t34 = t33 + "]}"@;
    crate::text::lemma_parts_stay(t33, "]}"@);
    crate::text::lemma_part_stands(t31, ",\"history\":["@, v16, "]}"@);
    assert(state_json(state, figures) == t34);
}

/// In the JSON object of a snapshot every name is followed by the value of its own field.
pub proof fn snapshot_object_names_every_field(snapshot: SnapshotView, counted_seconds: u64, final_line: bool)
    ensures
        ({
            let text = snapshot_json(snapshot, counted_seconds, final_line);
            &&& crate::text::has_part(
                text,
                "{\"state\":\""@ + power_state_label(snapshot.on_battery_only) + "\",\"on_battery_only\":"@,
            )
            &&& crate::text::has_part(
                text,
                "\",\"on_battery_only\":"@ + boolean_text(snapshot.on_battery_only) + ",\"battery_capacity\":"@,
            )
            &&& crate::text::has_part(
                text,
                ",\"battery_capacity\":"@ + optional_json(snapshot.battery_capacity) + ",\"counted_seconds\":"@,
            )
            &&& crate::text::has_part(
                text,
                ",\"counted_seconds\":"@ + crate::text::decimal(counted_seconds as nat) + ",\"counted_hms\":\""@,
            )
            &&& crate::text::has_part(
                text,
                ",\"counted_hms\":\""@ + duration_text(counted_seconds) + "\",\"final\":"@,
            )
            &&& crate::text::has_part(
                text,
                "\",\"final\":"@ + boolean_text(final_line) + "}"@,
            )
        }),
{
    let none = Seq::<char>::empty();
    let t0 = "{\"state\":\""@;
    assert(none + t0 =~= t0);
    let v0 = power_state_label(snapshot.on_battery_only);
    let t1 = t0 + v0;
    crate::text::lemma_parts_stay(t0, v0);
    let t2 = t1 + "\",\"on_battery_only\":"@;
    crate::text::lemma_parts_stay(t1, "\",\"on_battery_only\":"@);
    crate::text::lemma_part_stands(none, "{\"state\":\""@, v0, "\",\"on_battery_only\":"@);
    let v1 = boolean_text(snapshot.on_battery_only);
    let t3 = t2 + v1;
    crate::text::lemma_parts_stay(t2, v1);
    let t4 = t3 + ",\"battery_capacity\":"@;
    crate::text::lemma_parts_stay(t3, ",\"battery_capacity\":"@);
    crate::text::lemma_part_stands(t1, "\",\"on_battery_only\":"@, v1, ",\"battery_capacity\":"@);
    let v2 = optional_json(snapshot.battery_capacity);
    let t5 = t4 + v2;
    crate::text::lemma_parts_stay(t4, v2);
    let t6 = t5 + ",\"counted_seconds\":"@;
    crate::text::lemma_parts_stay(t5, ",\"counted_seconds\":"@);
    crate::text::lemma_part_stands(t3, ",\"battery_capacity\":"@, v2, ",\"counted_seconds\":"@);
    let v3 = crate::text::decimal(counted_seconds as nat);
    let t7 = t6 + v3;
    crate::text::lemma_parts_stay(t6, v3);
    let t8 = t7 + ",\"counted_hms\":\""@;
    crate::text::lemma_parts_stay(t7, ",\"counted_hms\":\""@);
    crate::text::lemma_part_stands(t5, ",\"counted_seconds\":"@, v3, ",\"counted_hms\":\""@);
    let v4 = duration_text(counted_seconds);
    let t9 = t8 + v4;
    crate::text::lemma_parts_stay(t8, v4);
    let t10 = t9 + "\",\"final\":"@;
    crate::text::lemma_parts_stay(t9, "\",\"final\":"@);
    crate::text::lemma_part_stands(t7, ",\"counted_hms\":\""@, v4, "\",\"final\":"@);
    let v5 = boolean_text(final_line);
    let t11 = t10 + v5;
    crate::text::lemma_parts_stay(t10, v5);
    let t12 = t11 + "}"@;
    crate::text::lemma_parts_stay(t11, "}"@);
    crate::text::lemma_part_stands(t9, "\",\"final\":"@, v5, "}"@);
    assert(snapshot_json(snapshot, counted_seconds, final_line) == t12);
}

/// A capacity in JSON is a number, or `null` where it is not known, and the power state and the
/// truth values have their words.
pub proof fn json_values_have_their_words(capacity: u8)
    ensures
        optional_json(Some(capacity)) == crate::text::decimal(capacity as nat),
        optional_json(None) == "null"@,
        boolean_text(true) == "true"@,
        boolean_text(false) == "false"@,
        power_state_label(true) == "battery"@,
        power_state_label(false) == "external-or-idle"@,
{
}

/// One more point stands behind a comma at the end of a history in JSON, and each of its names is
/// followed by its own field.
pub proof fn history_objects_follow_the_points(
    history: Seq<BatteryHistoryPoint>,
    point: BatteryHistoryPoint,
)
    ensures
        history_json(Seq::empty()).len() == 0,
        history_json(seq![point]) == point_json(point),
        history.len() > 0 ==> history_json(history.push(point)) == history_json(history) + ","@
            + point_json(point),
        point_json(point) == "{\"updated_at_unix\":"@ + crate::text::decimal(
            point.updated_at_unix as nat,
        ) + ",\"active_drop_percent\":"@ + crate::text::decimal(point.active_drop_percent as nat)
            + ",\"standby_drop_percent\":"@ + crate::text::decimal(
            point.standby_drop_percent as nat,
        ) + ",\"battery_capacity\":"@ + optional_json(point.battery_capacity) + "}"@,
{
    let more = history.push(point);
    assert(points_json(more).drop_last() =~= points_json(history));
    assert(points_json(seq![point]) =~= seq![point_json(point)]);
}

} // verus!
