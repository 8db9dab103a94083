//! The text form of a battery state.
//!
//! A state is written as one `key=value` line per field and one line per history point. A
//! reader takes the last line of each key, skips what it does not know, and refuses a text
//! without the fields that every state has.

use crate::state::{
    latest, trim_history, BatteryHistoryPoint, BatteryState, StateView, MAX_HISTORY_POINTS,
};
use crate::text::{
    chars_of, decimal_string, parse_u64, parse_u8, same_text, slices_view, split_at_first,
    split_lines, split_parts, string_of,
};
use vstd::prelude::*;

verus! {

/// The keys of a state file.
#[derive(Clone, Copy, PartialEq, Eq, Structural)]
pub enum Key {
    CountedSeconds,
    StandbySeconds,
    OnBatteryOnly,
    BatteryCapacity,
    LastChargedCapacity,
    DischargeSeconds,
    ActiveDropPercent,
    StandbyDropPercent,
    EnergyNow,
    EnergyEmpty,
    PowerNow,
    ShortAveragePower,
    LongAveragePower,
    History,
    UpdatedAtUnix,
}

/// How a key is written.
pub open spec fn key_name(key: Key) -> Seq<char> {
    match key {
        Key::CountedSeconds => "counted_seconds"@,
        Key::StandbySeconds => "standby_seconds"@,
        Key::OnBatteryOnly => "on_battery_only"@,
        Key::BatteryCapacity => "battery_capacity"@,
        Key::LastChargedCapacity => "last_charged_capacity"@,
        Key::DischargeSeconds => "discharge_seconds"@,
        Key::ActiveDropPercent => "active_drop_percent"@,
        Key::StandbyDropPercent => "standby_drop_percent"@,
        Key::EnergyNow => "energy_now_microwatt_hours"@,
        Key::EnergyEmpty => "energy_empty_microwatt_hours"@,
        Key::PowerNow => "power_now_microwatts"@,
        Key::ShortAveragePower => "short_average_power_microwatts"@,
        Key::LongAveragePower => "long_average_power_microwatts"@,
        Key::History => "history"@,
        Key::UpdatedAtUnix => "updated_at_unix"@,
    }
}

/// Whether a text holds lower-case letters and underscores only.
pub open spec fn is_word(s: Seq<char>) -> bool {
    forall|i: int| 0 <= i < s.len() ==> ('a' <= #[trigger] s[i] <= 'z' || s[i] == '_')
}

proof fn lemma_key_is_word(key: Key)
    ensures
        is_word(key_name(key)),
{
    reveal_strlit("counted_seconds");
    reveal_strlit("standby_seconds");
    reveal_strlit("on_battery_only");
    reveal_strlit("battery_capacity");
    reveal_strlit("last_charged_capacity");
    reveal_strlit("discharge_seconds");
    reveal_strlit("active_drop_percent");
    reveal_strlit("standby_drop_percent");
    reveal_strlit("energy_now_microwatt_hours");
    reveal_strlit("energy_empty_microwatt_hours");
    reveal_strlit("power_now_microwatts");
    reveal_strlit("short_average_power_microwatts");
    reveal_strlit("long_average_power_microwatts");
    reveal_strlit("history");
    reveal_strlit("updated_at_unix");
}

/// The key that a name stands for.
pub open spec fn key_of(name: Seq<char>) -> Option<Key> {
    if name == key_name(Key::CountedSeconds) {
        Some(Key::CountedSeconds)
    } else if name == key_name(Key::StandbySeconds) {
        Some(Key::StandbySeconds)
    } else if name == key_name(Key::OnBatteryOnly) {
        Some(Key::OnBatteryOnly)
    } else if name == key_name(Key::BatteryCapacity) {
        Some(Key::BatteryCapacity)
    } else if name == key_name(Key::LastChargedCapacity) {
        Some(Key::LastChargedCapacity)
    } else if name == key_name(Key::DischargeSeconds) {
        Some(Key::DischargeSeconds)
    } else if name == key_name(Key::ActiveDropPercent) {
        Some(Key::ActiveDropPercent)
    } else if name == key_name(Key::StandbyDropPercent) {
        Some(Key::StandbyDropPercent)
    } else if name == key_name(Key::EnergyNow) {
        Some(Key::EnergyNow)
    } else if name == key_name(Key::EnergyEmpty) {
        Some(Key::EnergyEmpty)
    } else if name == key_name(Key::PowerNow) {
        Some(Key::PowerNow)
    } else if name == key_name(Key::ShortAveragePower) {
        Some(Key::ShortAveragePower)
    } else if name == key_name(Key::LongAveragePower) {
        Some(Key::LongAveragePower)
    } else if name == key_name(Key::History) {
        Some(Key::History)
    } else if name == key_name(Key::UpdatedAtUnix) {
        Some(Key::UpdatedAtUnix)
    } else {
        None
    }
}

/// Every key reads back from its name.
proof fn lemma_key_reads_back(key: Key)
    ensures
        key_of(key_name(key)) == Some(key),
{
    reveal_strlit("counted_seconds");
    reveal_strlit("standby_seconds");
    reveal_strlit("on_battery_only");
    reveal_strlit("battery_capacity");
    reveal_strlit("last_charged_capacity");
    reveal_strlit("discharge_seconds");
    reveal_strlit("active_drop_percent");
    reveal_strlit("standby_drop_percent");
    reveal_strlit("energy_now_microwatt_hours");
    reveal_strlit("energy_empty_microwatt_hours");
    reveal_strlit("power_now_microwatts");
    reveal_strlit("short_average_power_microwatts");
    reveal_strlit("long_average_power_microwatts");
    reveal_strlit("history");
    reveal_strlit("updated_at_unix");
    assert("counted_seconds"@.len() == 15);
    assert("standby_seconds"@.len() == 15);
    assert("on_battery_only"@.len() == 15);
    assert("battery_capacity"@.len() == 16);
    assert("last_charged_capacity"@.len() == 21);
    assert("discharge_seconds"@.len() == 17);
    assert("active_drop_percent"@.len() == 19);
    assert("standby_drop_percent"@.len() == 20);
    assert("energy_now_microwatt_hours"@.len() == 26);
    assert("energy_empty_microwatt_hours"@.len() == 28);
    assert("power_now_microwatts"@.len() == 20);
    assert("short_average_power_microwatts"@.len() == 30);
    assert("long_average_power_microwatts"@.len() == 29);
    assert("history"@.len() == 7);
    assert("updated_at_unix"@.len() == 15);
    // Names of the same length differ in their first letter.
    assert("counted_seconds"@[0] == 'c');
    assert("standby_seconds"@[0] == 's');
    assert("on_battery_only"@[0] == 'o');
    assert("updated_at_unix"@[0] == 'u');
    assert("standby_drop_percent"@[0] == 's');
    assert("power_now_microwatts"@[0] == 'p');
}

/// Why a text is no state.
#[derive(Debug, Clone, Copy, PartialEq, Eq, Structural)]
pub enum StateError {
    /// A field is missing or a line cannot be read.
    Invalid,
}

impl StateError {
    /// The message of the error.
    pub open spec fn text(self) -> Seq<char> {
        "invalid battery state file"@
    }

    /// The message of the error.
    pub fn message(&self) -> (r: String)
        ensures
            r@ == self.text(),
    {
        "invalid battery state file".to_string()
    }
}

// ---------------------------------------------------------------------------
// Values
// ---------------------------------------------------------------------------

/// A number, or the word that stands for none.
pub open spec fn optional_text(value: Option<nat>) -> Seq<char> {
    match value {
        Some(n) => crate::text::decimal(n),
        None => "unknown"@,
    }
}

/// A percentage as a plain number.
pub open spec fn capacity_number(capacity: Option<u8>) -> Option<nat> {
    match capacity {
        Some(value) => Some(value as nat),
        None => None,
    }
}

/// A reading as a plain number.
pub open spec fn reading_number(reading: Option<u64>) -> Option<nat> {
    match reading {
        Some(value) => Some(value as nat),
        None => None,
    }
}

/// The reading that a text spells: a number or the word for none. Anything else is refused.
pub open spec fn optional_u64(text: Seq<char>) -> Option<Option<u64>> {
    if text == "unknown"@ {
        Some(None)
    } else {
        match crate::text::unsigned_u64(text) {
            Some(value) => Some(Some(value)),
            None => None,
        }
    }
}

/// The percentage that a text spells: a number or the word for none. Anything else is refused.
pub open spec fn optional_capacity(text: Seq<char>) -> Option<Option<u8>> {
    if text == "unknown"@ {
        Some(None)
    } else {
        match crate::text::unsigned_u8(text) {
            Some(value) => Some(Some(value)),
            None => None,
        }
    }
}

/// The truth value that a text spells.
pub open spec fn boolean(text: Seq<char>) -> Option<bool> {
    if text == "true"@ {
        Some(true)
    } else if text == "false"@ {
        Some(false)
    } else {
        None
    }
}

/// How a truth value is written.
pub open spec fn boolean_text(value: bool) -> Seq<char> {
    if value {
        "true"@
    } else {
        "false"@
    }
}

/// The history point that a text spells: three numbers and an optional percentage, with
/// commas between them.
pub open spec fn history_point(text: Seq<char>) -> Option<BatteryHistoryPoint> {
    let parts = crate::text::split(text, ',');
    if parts.len() != 4 {
        None
    } else {
        match (
            crate::text::unsigned_u64(parts[0]),
            crate::text::unsigned_u64(parts[1]),
            crate::text::unsigned_u64(parts[2]),
            optional_capacity(parts[3]),
        ) {
            (Some(time), Some(active), Some(standby), Some(capacity)) => Some(
                BatteryHistoryPoint {
                    updated_at_unix: time,
                    active_drop_percent: active,
                    standby_drop_percent: standby,
                    battery_capacity: capacity,
                },
            ),
            _ => None,
        }
    }
}

/// How a history point is written.
pub open spec fn point_text(point: BatteryHistoryPoint) -> Seq<char> {
    crate::text::decimal(point.updated_at_unix as nat).push(',') + (crate::text::decimal(
        point.active_drop_percent as nat,
    ).push(',') + (crate::text::decimal(point.standby_drop_percent as nat).push(',')
        + optional_text(capacity_number(point.battery_capacity))))
}

/// Writes an optional percentage.
pub fn format_optional_capacity(capacity: Option<u8>) -> (r: String)
    ensures
        r@ == optional_text(capacity_number(capacity)),
{
    match capacity {
        Some(value) => decimal_string(value as u64),
        None => "unknown".to_string(),
    }
}

/// Writes an optional reading.
pub fn format_optional_u64(value: Option<u64>) -> (r: String)
    ensures
        r@ == optional_text(reading_number(value)),
{
    match value {
        Some(value) => decimal_string(value),
        None => "unknown".to_string(),
    }
}

/// Reads an optional percentage.
pub fn parse_optional_capacity(raw: &str) -> (r: Result<Option<u8>, StateError>)
    ensures
        match r {
            Ok(value) => optional_capacity(raw@) == Some(value),
            Err(_) => optional_capacity(raw@) is None,
        },
{
    let chars = chars_of(raw);
    if same_text(chars.as_slice(), "unknown") {
        return Ok(None);
    }
    match parse_u8(chars.as_slice()) {
        Some(value) => Ok(Some(value)),
        None => Err(StateError::Invalid),
    }
}

/// Reads an optional reading.
pub fn parse_optional_u64(raw: &str) -> (r: Result<Option<u64>, StateError>)
    ensures
        match r {
            Ok(value) => optional_u64(raw@) == Some(value),
            Err(_) => optional_u64(raw@) is None,
        },
{
    let chars = chars_of(raw);
    if same_text(chars.as_slice(), "unknown") {
        return Ok(None);
    }
    match parse_u64(chars.as_slice()) {
        Some(value) => Ok(Some(value)),
        None => Err(StateError::Invalid),
    }
}

/// Reads a truth value.
fn parse_boolean(raw: &[char]) -> (r: Option<bool>)
    ensures
        r == boolean(raw@),
{
    if same_text(raw, "true") {
        Some(true)
    } else if same_text(raw, "false") {
        Some(false)
    } else {
        None
    }
}

/// Reads a history point.
pub fn parse_history_point(raw: &str) -> (r: Result<BatteryHistoryPoint, StateError>)
    ensures
        match r {
            Ok(point) => history_point(raw@) == Some(point),
            Err(_) => history_point(raw@) is None,
        },
{
    let chars = chars_of(raw);
    let parts = split_parts(chars.as_slice(), ',');
    let ghost views = slices_view(parts@);
    if parts.len() != 4 {
        return Err(StateError::Invalid);
    }
    assert(views[0] == parts@[0]@ && views[1] == parts@[1]@ && views[2] == parts@[2]@ && views[3]
        == parts@[3]@);
    let updated_at_unix: u64 = match parse_u64(parts[0]) {
        Some(value) => value,
        None => {
            return Err(StateError::Invalid);
        },
    };
    let active_drop_percent: u64 = match parse_u64(parts[1]) {
        Some(value) => value,
        None => {
            return Err(StateError::Invalid);
        },
    };
    let standby_drop_percent: u64 = match parse_u64(parts[2]) {
        Some(value) => value,
        None => {
            return Err(StateError::Invalid);
        },
    };
    let battery_capacity = match parse_optional_capacity(string_of(parts[3]).as_str()) {
        Ok(value) => value,
        Err(err) => {
            return Err(err);
        },
    };
    Ok(
        BatteryHistoryPoint {
            updated_at_unix,
            active_drop_percent,
            standby_drop_percent,
            battery_capacity,
        },
    )
}

// ---------------------------------------------------------------------------
// Reading
// ---------------------------------------------------------------------------

/// The known key of a line and the value behind it.
pub open spec fn entry(line: Seq<char>) -> Option<(Key, Seq<char>)> {
    match crate::text::split_once(line, '=') {
        Some((name, value)) => match key_of(name) {
            Some(key) => Some((key, value)),
            None => None,
        },
        None => None,
    }
}

/// The value of the last line with a key.
pub open spec fn last_value(all: Seq<Seq<char>>, key: Key) -> Option<Seq<char>>
    decreases all.len(),
{
    if all.len() == 0 {
        None
    } else {
        match entry(all.last()) {
            Some((k, value)) if k == key => Some(value),
            _ => last_value(all.drop_last(), key),
        }
    }
}

/// The number on the last line with a key.
pub open spec fn last_u64(all: Seq<Seq<char>>, key: Key) -> Option<u64> {
    match last_value(all, key) {
        Some(value) => crate::text::unsigned_u64(value),
        None => None,
    }
}

/// The truth value on the last line with a key.
pub open spec fn last_boolean(all: Seq<Seq<char>>, key: Key) -> Option<bool> {
    match last_value(all, key) {
        Some(value) => boolean(value),
        None => None,
    }
}

/// The percentage on the last line with a key. Where that line spells none, the percentage
/// is unknown.
pub open spec fn last_capacity(all: Seq<Seq<char>>, key: Key) -> Option<Option<u8>> {
    match last_value(all, key) {
        Some(value) => Some(crate::text::unsigned_u8(value)),
        None => None,
    }
}

/// The reading on the last line with a key, which is unknown without such a line.
pub open spec fn last_reading(all: Seq<Seq<char>>, key: Key) -> Option<u64> {
    match last_value(all, key) {
        Some(value) => match optional_u64(value) {
            Some(reading) => reading,
            None => None,
        },
        None => None,
    }
}

/// The history points of all history lines, in order.
pub open spec fn history_points(all: Seq<Seq<char>>) -> Seq<BatteryHistoryPoint>
    decreases all.len(),
{
    if all.len() == 0 {
        Seq::empty()
    } else {
        let earlier = history_points(all.drop_last());
        match entry(all.last()) {
            Some((Key::History, value)) => match history_point(value) {
                Some(point) => earlier.push(point),
                None => earlier,
            },
            _ => earlier,
        }
    }
}

/// Whether a line can be read: a line with a reading spells one, and so does a line with a
/// history point. All other lines can be read.
pub open spec fn is_readable_line(line: Seq<char>) -> bool {
    match entry(line) {
        Some((Key::EnergyNow, value)) => optional_u64(value) is Some,
        Some((Key::EnergyEmpty, value)) => optional_u64(value) is Some,
        Some((Key::PowerNow, value)) => optional_u64(value) is Some,
        Some((Key::ShortAveragePower, value)) => optional_u64(value) is Some,
        Some((Key::LongAveragePower, value)) => optional_u64(value) is Some,
        Some((Key::History, value)) => history_point(value) is Some,
        _ => true,
    }
}

/// Whether lines hold a state: all can be read, and the fields that every state has are there.
pub open spec fn holds_state(all: Seq<Seq<char>>) -> bool {
    &&& forall|i: int| 0 <= i < all.len() ==> is_readable_line(#[trigger] all[i])
    &&& last_u64(all, Key::CountedSeconds) is Some
    &&& last_boolean(all, Key::OnBatteryOnly) is Some
    &&& last_capacity(all, Key::BatteryCapacity) is Some
    &&& last_u64(all, Key::UpdatedAtUnix) is Some
}

/// `value`, or zero where there is none.
pub open spec fn or_zero(value: Option<u64>) -> u64 {
    match value {
        Some(n) => n,
        None => 0,
    }
}

/// The state that lines hold.
pub open spec fn held_state(all: Seq<Seq<char>>) -> StateView {
    StateView {
        counted_seconds: or_zero(last_u64(all, Key::CountedSeconds)),
        standby_seconds: or_zero(last_u64(all, Key::StandbySeconds)),
        on_battery_only: last_boolean(all, Key::OnBatteryOnly) == Some(true),
        battery_capacity: match last_capacity(all, Key::BatteryCapacity) {
            Some(capacity) => capacity,
            None => None,
        },
        last_charged_capacity: match last_capacity(all, Key::LastChargedCapacity) {
            Some(capacity) => capacity,
            None => None,
        },
        discharge_seconds: or_zero(last_u64(all, Key::DischargeSeconds)),
        active_drop_percent: or_zero(last_u64(all, Key::ActiveDropPercent)),
        standby_drop_percent: or_zero(last_u64(all, Key::StandbyDropPercent)),
        energy_now_microwatt_hours: last_reading(all, Key::EnergyNow),
        energy_empty_microwatt_hours: last_reading(all, Key::EnergyEmpty),
        power_now_microwatts: last_reading(all, Key::PowerNow),
        short_average_power_microwatts: last_reading(all, Key::ShortAveragePower),
        long_average_power_microwatts: last_reading(all, Key::LongAveragePower),
        history: latest(history_points(all), MAX_HISTORY_POINTS as nat),
        updated_at_unix: or_zero(last_u64(all, Key::UpdatedAtUnix)),
    }
}

/// Whether a text is the text form of a state.
pub open spec fn is_state_text(text: Seq<char>) -> bool {
    holds_state(crate::text::lines(text))
}

/// The state that a text is the form of.
pub open spec fn state_of_text(text: Seq<char>) -> StateView {
    held_state(crate::text::lines(text))
}

/// The key that a name stands for.
fn classify(name: &[char]) -> (key: Option<Key>)
    ensures
        key == key_of(name@),
{
    if same_text(name, "counted_seconds") {
        Some(Key::CountedSeconds)
    } else if same_text(name, "standby_seconds") {
        Some(Key::StandbySeconds)
    } else if same_text(name, "on_battery_only") {
        Some(Key::OnBatteryOnly)
    } else if same_text(name, "battery_capacity") {
        Some(Key::BatteryCapacity)
    } else if same_text(name, "last_charged_capacity") {
        Some(Key::LastChargedCapacity)
    } else if same_text(name, "discharge_seconds") {
        Some(Key::DischargeSeconds)
    } else if same_text(name, "active_drop_percent") {
        Some(Key::ActiveDropPercent)
    } else if same_text(name, "standby_drop_percent") {
        Some(Key::StandbyDropPercent)
    } else if same_text(name, "energy_now_microwatt_hours") {
        Some(Key::EnergyNow)
    } else if same_text(name, "energy_empty_microwatt_hours") {
        Some(Key::EnergyEmpty)
    } else if same_text(name, "power_now_microwatts") {
        Some(Key::PowerNow)
    } else if same_text(name, "short_average_power_microwatts") {
        Some(Key::ShortAveragePower)
    } else if same_text(name, "long_average_power_microwatts") {
        Some(Key::LongAveragePower)
    } else if same_text(name, "history") {
        Some(Key::History)
    } else if same_text(name, "updated_at_unix") {
        Some(Key::UpdatedAtUnix)
    } else {
        None
    }
}

/// The known key of a line and the value behind it.
fn line_entry<'a>(line: &'a [char]) -> (r: Option<(Key, &'a [char])>)
    ensures
        match r {
            Some((key, value)) => entry(line@) == Some((key, value@)),
            None => entry(line@) is None,
        },
{
    match split_at_first(line, '=') {
        Some((name, value)) => match classify(name) {
            Some(key) => Some((key, value)),
            None => None,
        },
        None => None,
    }
}

/// Reads a state from its text form.
pub fn parse_battery_state(raw: &str) -> (r: Result<BatteryState, StateError>)
    ensures
        match r {
            Ok(state) => is_state_text(raw@) && state@ == state_of_text(raw@),
            Err(StateError::Invalid) => !is_state_text(raw@),
        },
{
    let chars = chars_of(raw);
    let parts = split_lines(chars.as_slice());
    let ghost all = slices_view(parts@);

    let mut counted_seconds: Option<u64> = None;
    let mut standby_seconds: Option<u64> = None;
    let mut on_battery_only: Option<bool> = None;
    let mut battery_capacity: Option<Option<u8>> = None;
    let mut last_charged_capacity: Option<Option<u8>> = None;
    let mut discharge_seconds: Option<u64> = None;
    let mut active_drop_percent: Option<u64> = None;
    let mut standby_drop_percent: Option<u64> = None;
    let mut energy_now: Option<u64> = None;
    let mut energy_empty: Option<u64> = None;
    let mut power_now: Option<u64> = None;
    let mut short_average_power: Option<u64> = None;
    let mut long_average_power: Option<u64> = None;
    let mut history: Vec<BatteryHistoryPoint> = Vec::new();
    let mut updated_at_unix: Option<u64> = None;

    let mut i: usize = 0;
    while i < parts.len()
        invariant
            i <= parts@.len(),
            all == slices_view(parts@),
            all == crate::text::lines(raw@),
            counted_seconds == last_u64(all.take(i as int), Key::CountedSeconds),
            standby_seconds == last_u64(all.take(i as int), Key::StandbySeconds),
            on_battery_only == last_boolean(all.take(i as int), Key::OnBatteryOnly),
            battery_capacity == last_capacity(all.take(i as int), Key::BatteryCapacity),
            last_charged_capacity == last_capacity(all.take(i as int), Key::LastChargedCapacity),
            discharge_seconds == last_u64(all.take(i as int), Key::DischargeSeconds),
            active_drop_percent == last_u64(all.take(i as int), Key::ActiveDropPercent),
            standby_drop_percent == last_u64(all.take(i as int), Key::StandbyDropPercent),
            energy_now == last_reading(all.take(i as int), Key::EnergyNow),
            energy_empty == last_reading(all.take(i as int), Key::EnergyEmpty),
            power_now == last_reading(all.take(i as int), Key::PowerNow),
            short_average_power == last_reading(all.take(i as int), Key::ShortAveragePower),
            long_average_power == last_reading(all.take(i as int), Key::LongAveragePower),
            history@ == history_points(all.take(i as int)),
            updated_at_unix == last_u64(all.take(i as int), Key::UpdatedAtUnix),
            forall|j: int| 0 <= j < i ==> is_readable_line(#[trigger] all[j]),
        decreases parts@.len() - i,
    {
        let line = parts[i];
        assert(all[i as int] == line@);
        assert(all.take(i + 1).drop_last() =~= all.take(i as int));
        assert(all.take(i + 1).last() == line@);
        if let Some((key, value)) = line_entry(line) {
            match key {
                Key::CountedSeconds => {
                    counted_seconds = parse_u64(value);
                },
                Key::StandbySeconds => {
                    standby_seconds = parse_u64(value);
                },
                Key::OnBatteryOnly => {
                    on_battery_only = parse_boolean(value);
                },
                Key::BatteryCapacity => {
                    battery_capacity = Some(parse_u8(value));
                },
                Key::LastChargedCapacity => {
                    last_charged_capacity = Some(parse_u8(value));
                },
                Key::DischargeSeconds => {
                    discharge_seconds = parse_u64(value);
                },
                Key::ActiveDropPercent => {
                    active_drop_percent = parse_u64(value);
                },
                Key::StandbyDropPercent => {
                    standby_drop_percent = parse_u64(value);
                },
                Key::EnergyNow => match parse_optional_u64(string_of(value).as_str()) {
                    Ok(reading) => {
                        energy_now = reading;
                    },
                    Err(err) => {
                        return Err(err);
                    },
                },
                Key::EnergyEmpty => match parse_optional_u64(string_of(value).as_str()) {
                    Ok(reading) => {
                        energy_empty = reading;
                    },
                    Err(err) => {
                        return Err(err);
                    },
                },
                Key::PowerNow => match parse_optional_u64(string_of(value).as_str()) {
                    Ok(reading) => {
                        power_now = reading;
                    },
                    Err(err) => {
                        return Err(err);
                    },
                },
                Key::ShortAveragePower => match parse_optional_u64(string_of(value).as_str()) {
                    Ok(reading) => {
                        short_average_power = reading;
                    },
                    Err(err) => {
                        return Err(err);
                    },
                },
                Key::LongAveragePower => match parse_optional_u64(string_of(value).as_str()) {
                    Ok(reading) => {
                        long_average_power = reading;
                    },
                    Err(err) => {
                        return Err(err);
                    },
                },
                Key::History => match parse_history_point(string_of(value).as_str()) {
                    Ok(point) => {
                        history.push(point);
                    },
                    Err(err) => {
                        return Err(err);
                    },
                },
                Key::UpdatedAtUnix => {
                    updated_at_unix = parse_u64(value);
                },
            }
        }
        i += 1;
    }
    assert(all.take(parts@.len() as int) =~= all);
    trim_history(&mut history);

    match (counted_seconds, on_battery_only, battery_capacity, updated_at_unix) {
        (Some(counted), Some(on_battery), Some(capacity), Some(updated_at)) => Ok(
            BatteryState {
                counted_seconds: counted,
                standby_seconds: standby_seconds.unwrap_or(0),
                on_battery_only: on_battery,
                battery_capacity: capacity,
                last_charged_capacity: last_charged_capacity.unwrap_or(None),
                discharge_seconds: discharge_seconds.unwrap_or(0),
                active_drop_percent: active_drop_percent.unwrap_or(0),
                standby_drop_percent: standby_drop_percent.unwrap_or(0),
                energy_now_microwatt_hours: energy_now,
                energy_empty_microwatt_hours: energy_empty,
                power_now_microwatts: power_now,
                short_average_power_microwatts: short_average_power,
                long_average_power_microwatts: long_average_power,
                history,
                updated_at_unix: updated_at,
            },
        ),
        _ => Err(StateError::Invalid),
    }
}

// ---------------------------------------------------------------------------
// Writing
// ---------------------------------------------------------------------------

/// The line of a key and its value.
pub open spec fn key_line(key: Key, value: Seq<char>) -> Seq<char> {
    key_name(key).push('=') + value
}

/// The lines of the fields that stand before the history.
pub open spec fn field_lines(state: StateView) -> Seq<Seq<char>> {
    seq![
        key_line(Key::CountedSeconds, crate::text::decimal(state.counted_seconds as nat)),
        key_line(Key::StandbySeconds, crate::text::decimal(state.standby_seconds as nat)),
        key_line(Key::OnBatteryOnly, boolean_text(state.on_battery_only)),
        key_line(
            Key::BatteryCapacity,
            optional_text(capacity_number(state.battery_capacity)),
        ),
        key_line(
            Key::LastChargedCapacity,
            optional_text(capacity_number(state.last_charged_capacity)),
        ),
        key_line(Key::DischargeSeconds, crate::text::decimal(state.discharge_seconds as nat)),
        key_line(Key::ActiveDropPercent, crate::text::decimal(state.active_drop_percent as nat)),
        key_line(Key::StandbyDropPercent, crate::text::decimal(state.standby_drop_percent as nat)),
        key_line(Key::EnergyNow, optional_text(reading_number(state.energy_now_microwatt_hours))),
        key_line(
            Key::EnergyEmpty,
            optional_text(reading_number(state.energy_empty_microwatt_hours)),
        ),
        key_line(Key::PowerNow, optional_text(reading_number(state.power_now_microwatts))),
        key_line(
            Key::ShortAveragePower,
            optional_text(reading_number(state.short_average_power_microwatts)),
        ),
        key_line(
            Key::LongAveragePower,
            optional_text(reading_number(state.long_average_power_microwatts)),
        ),
    ]
}

/// The lines of a history.
pub open spec fn history_lines(points: Seq<BatteryHistoryPoint>) -> Seq<Seq<char>> {
    Seq::new(points.len(), |i: int| key_line(Key::History, point_text(points[i])))
}

/// The lines of a state. Only the latest points of the history are written.
pub open spec fn state_lines(state: StateView) -> Seq<Seq<char>> {
    (field_lines(state) + history_lines(latest(state.history, MAX_HISTORY_POINTS as nat))).push(
        key_line(Key::UpdatedAtUnix, crate::text::decimal(state.updated_at_unix as nat)),
    )
}

/// The text form of a state.
pub open spec fn state_text(state: StateView) -> Seq<char> {
    crate::text::terminated(state_lines(state))
}

/// How a key is written.
fn name_of(key: Key) -> (name: &'static str)
    ensures
        name@ == key_name(key),
{
    match key {
        Key::CountedSeconds => "counted_seconds",
        Key::StandbySeconds => "standby_seconds",
        Key::OnBatteryOnly => "on_battery_only",
        Key::BatteryCapacity => "battery_capacity",
        Key::LastChargedCapacity => "last_charged_capacity",
        Key::DischargeSeconds => "discharge_seconds",
        Key::ActiveDropPercent => "active_drop_percent",
        Key::StandbyDropPercent => "standby_drop_percent",
        Key::EnergyNow => "energy_now_microwatt_hours",
        Key::EnergyEmpty => "energy_empty_microwatt_hours",
        Key::PowerNow => "power_now_microwatts",
        Key::ShortAveragePower => "short_average_power_microwatts",
        Key::LongAveragePower => "long_average_power_microwatts",
        Key::History => "history",
        Key::UpdatedAtUnix => "updated_at_unix",
    }
}

/// Appends the line of a key to a text of terminated lines.
fn push_key_line(out: &mut String, key: Key, value: &str, Ghost(all): Ghost<Seq<Seq<char>>>)
    requires
        old(out)@ == crate::text::terminated(all),
    ensures
        final(out)@ == crate::text::terminated(all.push(key_line(key, value@))),
{
    out.append(name_of(key));
    out.push('=');
    out.append(value);
    out.push('\n');
    proof {
        crate::text::lemma_terminated_push(all, key_line(key, value@));
        assert(out@ =~= crate::text::terminated(all) + key_line(key, value@).push('\n'));
    }
}

/// Writes a history point.
fn format_point(point: &BatteryHistoryPoint) -> (r: String)
    ensures
        r@ == point_text(*point),
{
    let mut out = decimal_string(point.updated_at_unix);
    out.push(',');
    out.append(decimal_string(point.active_drop_percent).as_str());
    out.push(',');
    out.append(decimal_string(point.standby_drop_percent).as_str());
    out.push(',');
    out.append(format_optional_capacity(point.battery_capacity).as_str());
    assert(out@ =~= point_text(*point));
    out
}

/// Writes a truth value.
pub fn format_boolean(value: bool) -> (r: &'static str)
    ensures
        r@ == boolean_text(value),
{
    if value {
        "true"
    } else {
        "false"
    }
}

/// Writes a state in its text form.
pub fn format_battery_state(state: &BatteryState) -> (out: String)
    ensures
        out@ == state_text(state@),
{
    let ghost fields = field_lines(state@);
    let mut out = String::new();
    assert(fields.take(0) =~= Seq::<Seq<char>>::empty());

    push_key_line(
        &mut out,
        Key::CountedSeconds,
        decimal_string(state.counted_seconds).as_str(),
        Ghost(fields.take(0)),
    );
    assert(fields.take(0).push(fields[0]) =~= fields.take(1));
    push_key_line(
        &mut out,
        Key::StandbySeconds,
        decimal_string(state.standby_seconds).as_str(),
        Ghost(fields.take(1)),
    );
    assert(fields.take(1).push(fields[1]) =~= fields.take(2));
    push_key_line(
        &mut out,
        Key::OnBatteryOnly,
        format_boolean(state.on_battery_only),
        Ghost(fields.take(2)),
    );
    assert(fields.take(2).push(fields[2]) =~= fields.take(3));
    push_key_line(
        &mut out,
        Key::BatteryCapacity,
        format_optional_capacity(state.battery_capacity).as_str(),
        Ghost(fields.take(3)),
    );
    assert(fields.take(3).push(fields[3]) =~= fields.take(4));
    push_key_line(
        &mut out,
        Key::LastChargedCapacity,
        format_optional_capacity(state.last_charged_capacity).as_str(),
        Ghost(fields.take(4)),
    );
    assert(fields.take(4).push(fields[4]) =~= fields.take(5));
    push_key_line(
        &mut out,
        Key::DischargeSeconds,
        decimal_string(state.discharge_seconds).as_str(),
        Ghost(fields.take(5)),
    );
    assert(fields.take(5).push(fields[5]) =~= fields.take(6));
    push_key_line(
        &mut out,
        Key::ActiveDropPercent,
        decimal_string(state.active_drop_percent).as_str(),
        Ghost(fields.take(6)),
    );
    assert(fields.take(6).push(fields[6]) =~= fields.take(7));
    push_key_line(
        &mut out,
        Key::StandbyDropPercent,
        decimal_string(state.standby_drop_percent).as_str(),
        Ghost(fields.take(7)),
    );
    assert(fields.take(7).push(fields[7]) =~= fields.take(8));
    push_key_line(
        &mut out,
        Key::EnergyNow,
        format_optional_u64(state.energy_now_microwatt_hours).as_str(),
        Ghost(fields.take(8)),
    );
    assert(fields.take(8).push(fields[8]) =~= fields.take(9));
    push_key_line(
        &mut out,
        Key::EnergyEmpty,
        format_optional_u64(state.energy_empty_microwatt_hours).as_str(),
        Ghost(fields.take(9)),
    );
    assert(fields.take(9).push(fields[9]) =~= fields.take(10));
    push_key_line(
        &mut out,
        Key::PowerNow,
        format_optional_u64(state.power_now_microwatts).as_str(),
        Ghost(fields.take(10)),
    );
    assert(fields.take(10).push(fields[10]) =~= fields.take(11));
    push_key_line(
        &mut out,
        Key::ShortAveragePower,
        format_optional_u64(state.short_average_power_microwatts).as_str(),
        Ghost(fields.take(11)),
    );
    assert(fields.take(11).push(fields[11]) =~= fields.take(12));
    push_key_line(
        &mut out,
        Key::LongAveragePower,
        format_optional_u64(state.long_average_power_microwatts).as_str(),
        Ghost(fields.take(12)),
    );
    assert(fields.take(12).push(fields[12]) =~= fields);

    let start: usize = state.history.len().saturating_sub(MAX_HISTORY_POINTS);
    let ghost points = latest(state.history@, MAX_HISTORY_POINTS as nat);
    assert(points =~= state.history@.skip(start as int));
    let ghost past = history_lines(points);
    let mut i: usize = start;
    assert(fields + past.take(0) =~= fields);
    while i < state.history.len()
        invariant
            start <= i <= state.history@.len(),
            points == state.history@.skip(start as int),
            past == history_lines(points),
            out@ == crate::text::terminated(fields + past.take(i - start)),
        decreases state.history@.len() - i,
    {
        push_key_line(
            &mut out,
            Key::History,
            format_point(&state.history[i]).as_str(),
            Ghost(fields + past.take(i - start)),
        );
        assert((fields + past.take(i - start)).push(past[i - start]) =~= fields + past.take(
            i - start + 1,
        ));
        i += 1;
    }
    assert(past.take(points.len() as int) =~= past);
    push_key_line(
        &mut out,
        Key::UpdatedAtUnix,
        decimal_string(state.updated_at_unix).as_str(),
        Ghost(fields + past),
    );
    out
}

// ---------------------------------------------------------------------------
// What is written reads back
// ---------------------------------------------------------------------------

/// Whether a text is free of line ends.
spec fn is_clean(s: Seq<char>) -> bool {
    forall|i: int| 0 <= i < s.len() ==> #[trigger] s[i] != '\n' && s[i] != '\r'
}

proof fn lemma_words()
    ensures
        is_word("unknown"@),
        is_word("true"@),
        is_word("false"@),
        "unknown"@.len() > 0,
        "true"@ != "false"@,
{
    reveal_strlit("unknown");
    reveal_strlit("true");
    reveal_strlit("false");
    assert("true"@.len() != "false"@.len());
}

proof fn lemma_optional_text(value: Option<nat>)
    ensures
        is_clean(optional_text(value)),
        !optional_text(value).contains(','),
        value is Some ==> optional_text(value) != "unknown"@,
{
    lemma_words();
    match value {
        Some(n) => {
            crate::text::lemma_decimal_digits(n);
            assert(crate::text::is_digit(optional_text(value)[0]));
        },
        None => {},
    }
}

proof fn lemma_optional_u64_reads_back(value: Option<u64>)
    ensures
        optional_u64(optional_text(reading_number(value))) == Some(value),
{
    lemma_optional_text(reading_number(value));
    if let Some(n) = value {
        crate::text::decimal_reads_back(n as nat, u64::MAX as nat);
    }
}

proof fn lemma_optional_capacity_reads_back(value: Option<u8>)
    ensures
        optional_capacity(optional_text(capacity_number(value))) == Some(value),
        crate::text::unsigned_u8(optional_text(capacity_number(value))) == value,
{
    lemma_optional_text(capacity_number(value));
    match value {
        Some(n) => {
            crate::text::decimal_reads_back(n as nat, u8::MAX as nat);
        },
        None => {
            lemma_words();
            let word = "unknown"@;
            assert(!crate::text::is_digit(word[0]));
            assert(crate::text::unsigned_digits(word) == word);
        },
    }
}

proof fn lemma_u64_reads_back(value: u64)
    ensures
        crate::text::unsigned_u64(crate::text::decimal(value as nat)) == Some(value),
        is_clean(crate::text::decimal(value as nat)),
        !crate::text::decimal(value as nat).contains(','),
{
    crate::text::lemma_decimal_digits(value as nat);
    crate::text::decimal_reads_back(value as nat, u64::MAX as nat);
}

/// A history point reads back from its text form.
pub proof fn history_point_reads_back(point: BatteryHistoryPoint)
    ensures
        history_point(point_text(point)) == Some(point),
{
    let time = crate::text::decimal(point.updated_at_unix as nat);
    let active = crate::text::decimal(point.active_drop_percent as nat);
    let standby = crate::text::decimal(point.standby_drop_percent as nat);
    let capacity = optional_text(capacity_number(point.battery_capacity));
    lemma_u64_reads_back(point.updated_at_unix);
    lemma_u64_reads_back(point.active_drop_percent);
    lemma_u64_reads_back(point.standby_drop_percent);
    lemma_optional_capacity_reads_back(point.battery_capacity);
    lemma_optional_text(capacity_number(point.battery_capacity));
    crate::text::lemma_split_single(capacity, ',');
    crate::text::lemma_split_first(standby, ',', capacity);
    crate::text::lemma_split_first(active, ',', standby.push(',') + capacity);
    crate::text::lemma_split_first(time, ',', active.push(',') + (standby.push(',') + capacity));
    assert(crate::text::split(point_text(point), ',') =~= seq![time, active, standby, capacity]);
}

proof fn lemma_point_text_is_clean(point: BatteryHistoryPoint)
    ensures
        is_clean(point_text(point)),
{
    lemma_u64_reads_back(point.updated_at_unix);
    lemma_u64_reads_back(point.active_drop_percent);
    lemma_u64_reads_back(point.standby_drop_percent);
    lemma_optional_text(capacity_number(point.battery_capacity));
}

proof fn lemma_key_line(key: Key, value: Seq<char>)
    requires
        is_clean(value),
    ensures
        entry(key_line(key, value)) == Some((key, value)),
        crate::text::is_plain_line(key_line(key, value)),
{
    lemma_key_is_word(key);
    lemma_key_reads_back(key);
    crate::text::lemma_split_once_joined(key_name(key), '=', value);
}

/// The last line with a key is the one behind which no other has that key.
proof fn lemma_last_value(all: Seq<Seq<char>>, key: Key, at: int, value: Seq<char>)
    requires
        0 <= at < all.len(),
        entry(all[at]) == Some((key, value)),
        forall|j: int| at < j < all.len() ==> (entry(#[trigger] all[j]) matches Some((k, _)) ==> k != key),
    ensures
        last_value(all, key) == Some(value),
    decreases all.len(),
{
    if at < all.len() - 1 {
        assert(entry(all[all.len() - 1]) matches Some((k, _)) ==> k != key);
        assert(all.last() == all[all.len() - 1]);
        let earlier = all.drop_last();
        assert(earlier[at] == all[at]);
        assert forall|j: int| at < j < earlier.len() implies (entry(
            #[trigger] earlier[j],
        ) matches Some((k, _)) ==> k != key) by {
            assert(earlier[j] == all[j]);
        }
        lemma_last_value(earlier, key, at, value);
    }
}

proof fn lemma_no_history(all: Seq<Seq<char>>)
    requires
        forall|j: int| 0 <= j < all.len() ==> (entry(#[trigger] all[j]) matches Some((k, _)) ==> k
            != Key::History),
    ensures
        history_points(all) == Seq::<BatteryHistoryPoint>::empty(),
    decreases all.len(),
{
    if all.len() > 0 {
        assert(entry(all[all.len() - 1]) matches Some((k, _)) ==> k != Key::History);
        assert(all.last() == all[all.len() - 1]);
        let earlier = all.drop_last();
        assert forall|j: int| 0 <= j < earlier.len() implies (entry(
            #[trigger] earlier[j],
        ) matches Some((k, _)) ==> k != Key::History) by {
            assert(earlier[j] == all[j]);
        }
        lemma_no_history(earlier);
    }
}

proof fn lemma_history_reads_back(fields: Seq<Seq<char>>, points: Seq<BatteryHistoryPoint>)
    requires
        history_points(fields) == Seq::<BatteryHistoryPoint>::empty(),
    ensures
        history_points(fields + history_lines(points)) == points,
    decreases points.len(),
{
    let all = fields + history_lines(points);
    if points.len() == 0 {
        assert(all =~= fields);
        assert(points =~= Seq::<BatteryHistoryPoint>::empty());
    } else {
        let earlier = points.drop_last();
        assert(all.drop_last() =~= fields + history_lines(earlier));
        lemma_history_reads_back(fields, earlier);
        lemma_point_text_is_clean(points.last());
        lemma_key_line(Key::History, point_text(points.last()));
        history_point_reads_back(points.last());
        assert(all.last() == key_line(Key::History, point_text(points.last())));
        assert(earlier.push(points.last()) =~= points);
    }
}

/// The key on each of the lines of a state with `points` history points.
spec fn key_at(line: int, points: nat) -> Key {
    if line == 0 {
        Key::CountedSeconds
    } else if line == 1 {
        Key::StandbySeconds
    } else if line == 2 {
        Key::OnBatteryOnly
    } else if line == 3 {
        Key::BatteryCapacity
    } else if line == 4 {
        Key::LastChargedCapacity
    } else if line == 5 {
        Key::DischargeSeconds
    } else if line == 6 {
        Key::ActiveDropPercent
    } else if line == 7 {
        Key::StandbyDropPercent
    } else if line == 8 {
        Key::EnergyNow
    } else if line == 9 {
        Key::EnergyEmpty
    } else if line == 10 {
        Key::PowerNow
    } else if line == 11 {
        Key::ShortAveragePower
    } else if line == 12 {
        Key::LongAveragePower
    } else if line < 13 + points {
        Key::History
    } else {
        Key::UpdatedAtUnix
    }
}

/// What stands behind the key on each of the lines of a state.
spec fn value_at(state: StateView, line: int) -> Seq<char> {
    let points = latest(state.history, MAX_HISTORY_POINTS as nat);
    if line == 0 {
        crate::text::decimal(state.counted_seconds as nat)
    } else if line == 1 {
        crate::text::decimal(state.standby_seconds as nat)
    } else if line == 2 {
        boolean_text(state.on_battery_only)
    } else if line == 3 {
        optional_text(capacity_number(state.battery_capacity))
    } else if line == 4 {
        optional_text(capacity_number(state.last_charged_capacity))
    } else if line == 5 {
        crate::text::decimal(state.discharge_seconds as nat)
    } else if line == 6 {
        crate::text::decimal(state.active_drop_percent as nat)
    } else if line == 7 {
        crate::text::decimal(state.standby_drop_percent as nat)
    } else if line == 8 {
        optional_text(reading_number(state.energy_now_microwatt_hours))
    } else if line == 9 {
        optional_text(reading_number(state.energy_empty_microwatt_hours))
    } else if line == 10 {
        optional_text(reading_number(state.power_now_microwatts))
    } else if line == 11 {
        optional_text(reading_number(state.short_average_power_microwatts))
    } else if line == 12 {
        optional_text(reading_number(state.long_average_power_microwatts))
    } else if line < 13 + points.len() {
        point_text(points[line - 13])
    } else {
        crate::text::decimal(state.updated_at_unix as nat)
    }
}

/// Each line of a state reads as its key and its value.
proof fn lemma_state_line(state: StateView, line: int)
    requires
        0 <= line < state_lines(state).len(),
    ensures
        ({
            let points = latest(state.history, MAX_HISTORY_POINTS as nat);
            let text = state_lines(state)[line];
            &&& state_lines(state).len() == 14 + points.len()
            &&& entry(text) == Some((key_at(line, points.len()), value_at(state, line)))
            &&& crate::text::is_plain_line(text)
            &&& is_readable_line(text)
        }),
{
    let points = latest(state.history, MAX_HISTORY_POINTS as nat);
    let key = key_at(line, points.len());
    let value = value_at(state, line);
    assert(state_lines(state)[line] == key_line(key, value)) by {
        if 13 <= line < 13 + points.len() {
            assert(history_lines(points)[line - 13] == key_line(key, value));
        }
    }
    assert(is_clean(value)) by {
        lemma_words();
        lemma_u64_reads_back(state.counted_seconds);
        lemma_u64_reads_back(state.standby_seconds);
        lemma_u64_reads_back(state.discharge_seconds);
        lemma_u64_reads_back(state.active_drop_percent);
        lemma_u64_reads_back(state.standby_drop_percent);
        lemma_u64_reads_back(state.updated_at_unix);
        lemma_optional_text(capacity_number(state.battery_capacity));
        lemma_optional_text(capacity_number(state.last_charged_capacity));
        lemma_optional_text(reading_number(state.energy_now_microwatt_hours));
        lemma_optional_text(reading_number(state.energy_empty_microwatt_hours));
        lemma_optional_text(reading_number(state.power_now_microwatts));
        lemma_optional_text(reading_number(state.short_average_power_microwatts));
        lemma_optional_text(reading_number(state.long_average_power_microwatts));
        if 13 <= line < 13 + points.len() {
            lemma_point_text_is_clean(points[line - 13]);
        }
    }
    lemma_key_line(key, value);
    lemma_optional_u64_reads_back(state.energy_now_microwatt_hours);
    lemma_optional_u64_reads_back(state.energy_empty_microwatt_hours);
    lemma_optional_u64_reads_back(state.power_now_microwatts);
    lemma_optional_u64_reads_back(state.short_average_power_microwatts);
    lemma_optional_u64_reads_back(state.long_average_power_microwatts);
    if 13 <= line < 13 + points.len() {
        history_point_reads_back(points[line - 13]);
    }
}

/// The value of each key on the lines of a state.
proof fn lemma_state_value(state: StateView, line: int)
    requires
        0 <= line < state_lines(state).len(),
        !(13 <= line < state_lines(state).len() - 1),
    ensures
        ({
            let points = latest(state.history, MAX_HISTORY_POINTS as nat);
            last_value(state_lines(state), key_at(line, points.len())) == Some(
                value_at(state, line),
            )
        }),
{
    let all = state_lines(state);
    let points = latest(state.history, MAX_HISTORY_POINTS as nat);
    let key = key_at(line, points.len());
    lemma_state_line(state, line);
    assert forall|j: int| line < j < all.len() implies (entry(#[trigger] all[j]) matches Some(
        (k, _),
    ) ==> k != key) by {
        lemma_state_line(state, j);
    }
    lemma_last_value(all, key, line, value_at(state, line));
}

/// What a state file holds of a state: everything but the history points that are too old.
pub open spec fn kept(state: StateView) -> StateView {
    StateView { history: latest(state.history, MAX_HISTORY_POINTS as nat), ..state }
}

/// A state that is written reads back as it was, with its latest history points.
pub proof fn written_state_reads_back(state: StateView)
    ensures
        is_state_text(state_text(state)),
        state_of_text(state_text(state)) == kept(state),
{
    let all = state_lines(state);
    let points = latest(state.history, MAX_HISTORY_POINTS as nat);
    assert forall|i: int| 0 <= i < all.len() implies crate::text::is_plain_line(#[trigger] all[i])
        && is_readable_line(all[i]) by {
        lemma_state_line(state, i);
    }
    crate::text::terminated_lines_read_back(all);

    lemma_state_value(state, 0);
    lemma_state_value(state, 1);
    lemma_state_value(state, 2);
    lemma_state_value(state, 3);
    lemma_state_value(state, 4);
    lemma_state_value(state, 5);
    lemma_state_value(state, 6);
    lemma_state_value(state, 7);
    lemma_state_value(state, 8);
    lemma_state_value(state, 9);
    lemma_state_value(state, 10);
    lemma_state_value(state, 11);
    lemma_state_value(state, 12);
    lemma_state_value(state, all.len() - 1);

    lemma_words();
    lemma_u64_reads_back(state.counted_seconds);
    lemma_u64_reads_back(state.standby_seconds);
    lemma_u64_reads_back(state.discharge_seconds);
    lemma_u64_reads_back(state.active_drop_percent);
    lemma_u64_reads_back(state.standby_drop_percent);
    lemma_u64_reads_back(state.updated_at_unix);
    lemma_optional_capacity_reads_back(state.battery_capacity);
    lemma_optional_capacity_reads_back(state.last_charged_capacity);
    lemma_optional_u64_reads_back(state.energy_now_microwatt_hours);
    lemma_optional_u64_reads_back(state.energy_empty_microwatt_hours);
    lemma_optional_u64_reads_back(state.power_now_microwatts);
    lemma_optional_u64_reads_back(state.short_average_power_microwatts);
    lemma_optional_u64_reads_back(state.long_average_power_microwatts);

    let fields = field_lines(state);
    assert forall|j: int| 0 <= j < fields.len() implies (entry(#[trigger] fields[j]) matches Some(
        (k, _),
    ) ==> k != Key::History) by {
        lemma_state_line(state, j);
        assert(all[j] == fields[j]);
    }
    lemma_no_history(fields);
    lemma_history_reads_back(fields, points);
    lemma_state_line(state, all.len() - 1);
    assert(all.drop_last() =~= fields + history_lines(points));
    assert(history_points(all) == points);
    assert(latest(points, MAX_HISTORY_POINTS as nat) =~= points);
    assert(state_of_text(state_text(state)) =~= kept(state));
}

/// A state whose history is within bounds reads back exactly.
pub proof fn bounded_state_reads_back(state: StateView)
    requires
        state.history.len() <= MAX_HISTORY_POINTS,
    ensures
        is_state_text(state_text(state)),
        state_of_text(state_text(state)) == state,
{
    written_state_reads_back(state);
    assert(kept(state) =~= state);
}

/// Writing what was read changes nothing more: the text that comes out holds the same state
/// as the one that went in.
pub proof fn rewriting_keeps_the_state(text: Seq<char>)
    requires
        is_state_text(text),
    ensures
        is_state_text(state_text(state_of_text(text))),
        state_of_text(state_text(state_of_text(text))) == state_of_text(text),
{
    bounded_state_reads_back(state_of_text(text));
}

/// Two states with bounded histories and the same text form are the same state.
pub proof fn text_form_is_injective(a: StateView, b: StateView)
    requires
        a.history.len() <= MAX_HISTORY_POINTS,
        b.history.len() <= MAX_HISTORY_POINTS,
        state_text(a) == state_text(b),
    ensures
        a == b,
{
    bounded_state_reads_back(a);
    bounded_state_reads_back(b);
}

proof fn lemma_unknown_line(before: Seq<Seq<char>>, line: Seq<char>, after: Seq<Seq<char>>, key: Key)
    requires
        entry(line) is None,
    ensures
        last_value(before.push(line) + after, key) == last_value(before + after, key),
        history_points(before.push(line) + after) == history_points(before + after),
    decreases after.len(),
{
    let with = before.push(line) + after;
    let without = before + after;
    if after.len() == 0 {
        assert(with =~= before.push(line));
        assert(with.drop_last() =~= before);
        assert(without =~= before);
    } else {
        assert(with.drop_last() =~= before.push(line) + after.drop_last());
        assert(without.drop_last() =~= before + after.drop_last());
        lemma_unknown_line(before, line, after.drop_last(), key);
    }
}

/// A line without a known key changes nothing, wherever it stands.
pub proof fn unknown_lines_are_skipped(
    before: Seq<Seq<char>>,
    line: Seq<char>,
    after: Seq<Seq<char>>,
)
    requires
        entry(line) is None,
    ensures
        holds_state(before.push(line) + after) == holds_state(before + after),
        held_state(before.push(line) + after) == held_state(before + after),
{
    let with = before.push(line) + after;
    let without = before + after;
    assert forall|key: Key| #[trigger] last_value(with, key) == last_value(without, key) by {
        lemma_unknown_line(before, line, after, key);
    }
    lemma_unknown_line(before, line, after, Key::History);
    let all_with = forall|i: int| 0 <= i < with.len() ==> is_readable_line(#[trigger] with[i]);
    let all_without = forall|i: int|
        0 <= i < without.len() ==> is_readable_line(#[trigger] without[i]);
    if all_with {
        assert forall|i: int| 0 <= i < without.len() implies is_readable_line(
            #[trigger] without[i],
        ) by {
            if i < before.len() {
                assert(with[i] == without[i]);
            } else {
                assert(with[i + 1] == without[i]);
            }
        }
    }
    if all_without {
        assert forall|i: int| 0 <= i < with.len() implies is_readable_line(#[trigger] with[i]) by {
            if i < before.len() {
                assert(with[i] == without[i]);
            } else if i > before.len() {
                assert(with[i] == without[i - 1]);
            }
        }
    }
}

/// A number in decimal, or the word for none.
pub open spec fn number_or_unknown(value: Option<nat>) -> Seq<char> {
    match value {
        Some(number) => crate::text::decimal(number),
        None => "unknown"@,
    }
}

/// Every field of a state is written on a line of its own behind its own name, and the time of
/// the state stands last.
pub proof fn every_field_has_its_line(state: StateView)
    ensures
        ({
            let lines = state_lines(state);
            &&& lines.len() == 14 + vstd::math::min(state.history.len() as int, 120)
            &&& lines[0] == "counted_seconds="@ + crate::text::decimal(state.counted_seconds as nat)
            &&& lines[1] == "standby_seconds="@ + crate::text::decimal(state.standby_seconds as nat)
            &&& lines[2] == "on_battery_only="@ + (if state.on_battery_only {
                "true"@
            } else {
                "false"@
            })
            &&& lines[3] == "battery_capacity="@ + number_or_unknown(
                match state.battery_capacity {
                    Some(value) => Some(value as nat),
                    None => None,
                },
            )
            &&& lines[4] == "last_charged_capacity="@ + number_or_unknown(
                match state.last_charged_capacity {
                    Some(value) => Some(value as nat),
                    None => None,
                },
            )
            &&& lines[5] == "discharge_seconds="@ + crate::text::decimal(state.discharge_seconds as nat)
            &&& lines[6] == "active_drop_percent="@ + crate::text::decimal(state.active_drop_percent as nat)
            &&& lines[7] == "standby_drop_percent="@ + crate::text::decimal(state.standby_drop_percent as nat)
            &&& lines[8] == "energy_now_microwatt_hours="@ + number_or_unknown(
                match state.energy_now_microwatt_hours {
                    Some(value) => Some(value as nat),
                    None => None,
                },
            )
            &&& lines[9] == "energy_empty_microwatt_hours="@ + number_or_unknown(
                match state.energy_empty_microwatt_hours {
                    Some(value) => Some(value as nat),
                    None => None,
                },
            )
            &&& lines[10] == "power_now_microwatts="@ + number_or_unknown(
                match state.power_now_microwatts {
                    Some(value) => Some(value as nat),
                    None => None,
                },
            )
            &&& lines[11] == "short_average_power_microwatts="@ + number_or_unknown(
                match state.short_average_power_microwatts {
                    Some(value) => Some(value as nat),
                    None => None,
                },
            )
            &&& lines[12] == "long_average_power_microwatts="@ + number_or_unknown(
                match state.long_average_power_microwatts {
                    Some(value) => Some(value as nat),
                    None => None,
                },
            )
            &&& lines.last() == "updated_at_unix="@ + crate::text::decimal(state.updated_at_unix as nat)
        }),
        state_text(state) == crate::text::terminated(state_lines(state)),
{
    reveal_strlit("counted_seconds");
    reveal_strlit("counted_seconds=");
    reveal_strlit("standby_seconds");
    reveal_strlit("standby_seconds=");
    reveal_strlit("on_battery_only");
    reveal_strlit("on_battery_only=");
    reveal_strlit("battery_capacity");
    reveal_strlit("battery_capacity=");
    reveal_strlit("last_charged_capacity");
    reveal_strlit("last_charged_capacity=");
    reveal_strlit("discharge_seconds");
    reveal_strlit("discharge_seconds=");
    reveal_strlit("active_drop_percent");
    reveal_strlit("active_drop_percent=");
    reveal_strlit("standby_drop_percent");
    reveal_strlit("standby_drop_percent=");
    reveal_strlit("energy_now_microwatt_hours");
    reveal_strlit("energy_now_microwatt_hours=");
    reveal_strlit("energy_empty_microwatt_hours");
    reveal_strlit("energy_empty_microwatt_hours=");
    reveal_strlit("power_now_microwatts");
    reveal_strlit("power_now_microwatts=");
    reveal_strlit("short_average_power_microwatts");
    reveal_strlit("short_average_power_microwatts=");
    reveal_strlit("long_average_power_microwatts");
    reveal_strlit("long_average_power_microwatts=");
    reveal_strlit("updated_at_unix");
    reveal_strlit("updated_at_unix=");
    assert("counted_seconds"@.push('=') =~= "counted_seconds="@);
    assert("standby_seconds"@.push('=') =~= "standby_seconds="@);
    assert("on_battery_only"@.push('=') =~= "on_battery_only="@);
    assert("battery_capacity"@.push('=') =~= "battery_capacity="@);
    assert("last_charged_capacity"@.push('=') =~= "last_charged_capacity="@);
    assert("discharge_seconds"@.push('=') =~= "discharge_seconds="@);
    assert("active_drop_percent"@.push('=') =~= "active_drop_percent="@);
    assert("standby_drop_percent"@.push('=') =~= "standby_drop_percent="@);
    assert("energy_now_microwatt_hours"@.push('=') =~= "energy_now_microwatt_hours="@);
    assert("energy_empty_microwatt_hours"@.push('=') =~= "energy_empty_microwatt_hours="@);
    assert("power_now_microwatts"@.push('=') =~= "power_now_microwatts="@);
    assert("short_average_power_microwatts"@.push('=') =~= "short_average_power_microwatts="@);
    assert("long_average_power_microwatts"@.push('=') =~= "long_average_power_microwatts="@);
    assert("updated_at_unix"@.push('=') =~= "updated_at_unix="@);
}

/// The history is written behind the fields, one line for each of the latest 120 points in their
/// order, with its four numbers between commas.
pub proof fn every_point_has_its_line(state: StateView, i: int)
    requires
        0 <= i < vstd::math::min(state.history.len() as int, 120),
    ensures
        ({
            let count = vstd::math::min(state.history.len() as int, 120);
            let point = state.history[state.history.len() - count + i];
            state_lines(state)[13 + i] == "history="@ + crate::text::joined(
                seq![
                    crate::text::decimal(point.updated_at_unix as nat),
                    crate::text::decimal(point.active_drop_percent as nat),
                    crate::text::decimal(point.standby_drop_percent as nat),
                    number_or_unknown(
                        match point.battery_capacity {
                            Some(value) => Some(value as nat),
                            None => None,
                        },
                    ),
                ],
                ","@,
            )
        }),
{
    let count = vstd::math::min(state.history.len() as int, 120);
    let point = state.history[state.history.len() - count + i];
    let a = crate::text::decimal(point.updated_at_unix as nat);
    let b = crate::text::decimal(point.active_drop_percent as nat);
    let c = crate::text::decimal(point.standby_drop_percent as nat);
    let d = optional_text(capacity_number(point.battery_capacity));
    reveal_strlit("history");
    reveal_strlit("history=");
    reveal_strlit(",");
    let parts = seq![a, b, c, d];
    assert(parts.drop_last() =~= seq![a, b, c]);
    assert(parts.drop_last().drop_last() =~= seq![a, b]);
    assert(parts.drop_last().drop_last().drop_last() =~= seq![a]);
    reveal_with_fuel(crate::text::joined, 4);
    assert(crate::text::joined(parts, ","@) =~= point_text(point));
    assert("history"@.push('=') =~= "history="@);
    assert(latest(state.history, MAX_HISTORY_POINTS as nat)[i] == point);
    assert(state_lines(state)[13 + i] == key_line(Key::History, point_text(point)));
}

proof fn lemma_key_entry(key: Key, value: Seq<char>)
    ensures
        entry(key_line(key, value)) == Some((key, value)),
{
    lemma_key_is_word(key);
    lemma_key_reads_back(key);
    crate::text::lemma_split_once_joined(key_name(key), '=', value);
}

/// One more line changes the field of its key and no other, whatever stood before: a number that
/// cannot be read counts as zero, a percentage or a reading that cannot be read is unknown, and
/// only the word `true` means on battery. A history line adds its point at the end of the history,
/// of which the latest 120 points stay.
#[verifier::spinoff_prover]
#[verifier::rlimit(60)]
pub proof fn further_line_changes_its_own_field(all: Seq<Seq<char>>, key: Key, value: Seq<char>)
    ensures
        ({
            let before = held_state(all);
            let after = held_state(all.push(key_line(key, value)));
            match key {
                Key::CountedSeconds => after == (StateView {
                    counted_seconds: match crate::text::unsigned_u64(value) {
                        Some(number) => number,
                        None => 0,
                    },
                    ..before
                }),
                Key::StandbySeconds => after == (StateView {
                    standby_seconds: match crate::text::unsigned_u64(value) {
                        Some(number) => number,
                        None => 0,
                    },
                    ..before
                }),
                Key::OnBatteryOnly => after == (StateView {
                    on_battery_only: value == "true"@,
                    ..before
                }),
                Key::BatteryCapacity => after == (StateView {
                    battery_capacity: crate::text::unsigned_u8(value),
                    ..before
                }),
                Key::LastChargedCapacity => after == (StateView {
                    last_charged_capacity: crate::text::unsigned_u8(value),
                    ..before
                }),
                Key::DischargeSeconds => after == (StateView {
                    discharge_seconds: match crate::text::unsigned_u64(value) {
                        Some(number) => number,
                        None => 0,
                    },
                    ..before
                }),
                Key::ActiveDropPercent => after == (StateView {
                    active_drop_percent: match crate::text::unsigned_u64(value) {
                        Some(number) => number,
                        None => 0,
                    },
                    ..before
                }),
                Key::StandbyDropPercent => after == (StateView {
                    standby_drop_percent: match crate::text::unsigned_u64(value) {
                        Some(number) => number,
                        None => 0,
                    },
                    ..before
                }),
                Key::EnergyNow => after == (StateView {
                    energy_now_microwatt_hours: crate::text::unsigned_u64(value),
                    ..before
                }),
                Key::EnergyEmpty => after == (StateView {
                    energy_empty_microwatt_hours: crate::text::unsigned_u64(value),
                    ..before
                }),
                Key::PowerNow => after == (StateView {
                    power_now_microwatts: crate::text::unsigned_u64(value),
                    ..before
                }),
                Key::ShortAveragePower => after == (StateView {
                    short_average_power_microwatts: crate::text::unsigned_u64(value),
                    ..before
                }),
                Key::LongAveragePower => after == (StateView {
                    long_average_power_microwatts: crate::text::unsigned_u64(value),
                    ..before
                }),
                Key::UpdatedAtUnix => after == (StateView {
                    updated_at_unix: match crate::text::unsigned_u64(value) {
                        Some(number) => number,
                        None => 0,
                    },
                    ..before
                }),
                Key::History => match history_point(value) {
                    Some(point) => after == (StateView {
                        history: latest(before.history.push(point), 120),
                        ..before
                    }),
                    None => after == before,
                },
            }
        }),
{
    let more = all.push(key_line(key, value));
    lemma_further_values(all, key, value);
    lemma_words_are_no_numbers();
    let before = held_state(all);
    let after = held_state(more);
    if key == Key::History {
        if let Some(point) = history_point(value) {
            assert(after.history =~= latest(before.history.push(point), 120));
        }
    }
}

/// One more line is the last one with its key, and leaves the last lines with other keys alone.
proof fn lemma_further_values(all: Seq<Seq<char>>, key: Key, value: Seq<char>)
    ensures
        ({
            let more = all.push(key_line(key, value));
            &&& forall|k: Key|
                #[trigger] last_value(more, k) == (if k == key {
                    Some(value)
                } else {
                    last_value(all, k)
                })
            &&& history_points(more) == (match history_point(value) {
                Some(point) if key == Key::History => history_points(all).push(point),
                _ => history_points(all),
            })
        }),
{
    let more = all.push(key_line(key, value));
    assert(more.drop_last() =~= all);
    lemma_key_entry(key, value);
}

proof fn lemma_words_are_no_numbers()
    ensures
        crate::text::unsigned_u64("unknown"@) is None,
        crate::text::unsigned_u8("unknown"@) is None,
        "true"@ != "false"@,
{
    reveal_strlit("unknown");
    reveal_strlit("true");
    reveal_strlit("false");
    assert("true"@.len() == 4 && "false"@.len() == 5);
    assert(!crate::text::is_digit("unknown"@[0]));
}

/// One more line keeps a text a state unless the line itself cannot be read. The time counted, the
/// time of the state and the power state must be readable, a reading must be a number or the word
/// for none, and a history line must hold a point. Any other line is never refused.
pub proof fn only_broken_lines_are_refused(all: Seq<Seq<char>>, key: Key, value: Seq<char>)
    requires
        holds_state(all),
    ensures
        holds_state(all.push(key_line(key, value))) == (match key {
            Key::CountedSeconds | Key::UpdatedAtUnix => crate::text::unsigned_u64(value) is Some,
            Key::OnBatteryOnly => value == "true"@ || value == "false"@,
            Key::EnergyNow
            | Key::EnergyEmpty
            | Key::PowerNow
            | Key::ShortAveragePower
            | Key::LongAveragePower => value == "unknown"@ || crate::text::unsigned_u64(
                value,
            ) is Some,
            Key::History => history_point(value) is Some,
            _ => true,
        }),
{
    let line = key_line(key, value);
    let more = all.push(line);
    assert(more.drop_last() =~= all);
    lemma_key_entry(key, value);
    assert(more[all.len() as int] == line);
    assert(forall|i: int| 0 <= i < all.len() ==> #[trigger] more[i] == all[i]);
    if is_readable_line(line) {
        assert forall|i: int| 0 <= i < more.len() implies is_readable_line(#[trigger] more[i]) by {
            if i < all.len() {
                assert(is_readable_line(all[i]));
            }
        }
    }
}

/// Lines without the time counted, the power state, the capacity or the time of the state hold no
/// state. Without any other key the field is zero, unknown or empty.
pub proof fn absent_fields_have_their_defaults(all: Seq<Seq<char>>, key: Key)
    requires
        forall|i: int|
            0 <= i < all.len() ==> (entry(#[trigger] all[i]) matches Some((k, _)) ==> k != key),
    ensures
        match key {
            Key::CountedSeconds => !holds_state(all),
            Key::StandbySeconds => held_state(all).standby_seconds == 0,
            Key::OnBatteryOnly => !holds_state(all),
            Key::BatteryCapacity => !holds_state(all),
            Key::LastChargedCapacity => held_state(all).last_charged_capacity is None,
            Key::DischargeSeconds => held_state(all).discharge_seconds == 0,
            Key::ActiveDropPercent => held_state(all).active_drop_percent == 0,
            Key::StandbyDropPercent => held_state(all).standby_drop_percent == 0,
            Key::EnergyNow => held_state(all).energy_now_microwatt_hours is None,
            Key::EnergyEmpty => held_state(all).energy_empty_microwatt_hours is None,
            Key::PowerNow => held_state(all).power_now_microwatts is None,
            Key::ShortAveragePower => held_state(all).short_average_power_microwatts is None,
            Key::LongAveragePower => held_state(all).long_average_power_microwatts is None,
            Key::UpdatedAtUnix => !holds_state(all),
            Key::History => held_state(all).history.len() == 0,
        },
{
    lemma_absent_value(all, key);
    if key == Key::History {
        lemma_no_history(all);
    }
}

proof fn lemma_absent_value(all: Seq<Seq<char>>, key: Key)
    requires
        forall|i: int|
            0 <= i < all.len() ==> (entry(#[trigger] all[i]) matches Some((k, _)) ==> k != key),
    ensures
        last_value(all, key) is None,
    decreases all.len(),
{
    if all.len() > 0 {
        let earlier = all.drop_last();
        assert(entry(all[all.len() - 1]) matches Some((k, _)) ==> k != key);
        assert forall|i: int| 0 <= i < earlier.len() implies (entry(
            #[trigger] earlier[i],
        ) matches Some((k, _)) ==> k != key) by {
            assert(earlier[i] == all[i]);
        }
        lemma_absent_value(earlier, key);
    }
}

} // verus!
