//! Power supplies and what they say together about the machine.

use crate::text::{
    chars_of, option_view, parse_u64, parse_u8, same_text, string_of, trimmed,
};
use vstd::prelude::*;

verus! {

/// What a power supply is.
#[derive(Debug, Clone, PartialEq, Eq)]
pub enum SupplyKind {
    Battery,
    Mains,
    Usb,
    Other(String),
}

/// One power supply, as the system describes it.
#[derive(Debug, Clone, PartialEq, Eq)]
pub struct PowerSupply {
    pub name: String,
    pub kind: SupplyKind,
    pub status: Option<String>,
    pub online: Option<bool>,
    pub capacity: Option<u8>,
    pub energy_now_microwatt_hours: Option<u64>,
    pub energy_empty_microwatt_hours: Option<u64>,
    pub power_now_microwatts: Option<u64>,
    pub charge_now_microamp_hours: Option<u64>,
    pub charge_empty_microamp_hours: Option<u64>,
    pub current_now_microamps: Option<u64>,
    pub voltage_now_microvolts: Option<u64>,
}

/// The raw contents of the files that describe one supply. A file that does not exist is
/// `None`; `directory` is `None` where the name of the directory is not valid Unicode.
#[derive(Debug, Clone, PartialEq, Eq)]
pub struct SupplyFiles {
    pub directory: Option<String>,
    pub kind: Option<String>,
    pub status: Option<String>,
    pub online: Option<String>,
    pub capacity: Option<String>,
    pub energy_now: Option<String>,
    pub energy_empty: Option<String>,
    pub power_now: Option<String>,
    pub charge_now: Option<String>,
    pub charge_empty: Option<String>,
    pub current_now: Option<String>,
    pub voltage_now: Option<String>,
}

/// All supplies of the machine and their totals.
#[derive(Debug, Clone, PartialEq, Eq)]
pub struct PowerSnapshot {
    pub supplies: Vec<PowerSupply>,
    pub on_battery_only: bool,
    pub battery_capacity: Option<u8>,
    pub battery_energy_now_microwatt_hours: Option<u64>,
    pub battery_energy_empty_microwatt_hours: Option<u64>,
    pub battery_power_now_microwatts: Option<u64>,
}

/// Why there is no snapshot.
#[derive(Debug, Clone, Copy, PartialEq, Eq, Structural)]
pub enum SnapshotError {
    /// None of the supplies is a battery.
    NoBattery,
}

// ---------------------------------------------------------------------------
// Models
// ---------------------------------------------------------------------------

/// The model of [`SupplyKind`].
pub enum SupplyKindView {
    Battery,
    Mains,
    Usb,
    Other(Seq<char>),
}

/// The model of [`PowerSupply`].
pub struct SupplyView {
    pub name: Seq<char>,
    pub kind: SupplyKindView,
    pub status: Option<Seq<char>>,
    pub online: Option<bool>,
    pub capacity: Option<u8>,
    pub energy_now_microwatt_hours: Option<u64>,
    pub energy_empty_microwatt_hours: Option<u64>,
    pub power_now_microwatts: Option<u64>,
    pub charge_now_microamp_hours: Option<u64>,
    pub charge_empty_microamp_hours: Option<u64>,
    pub current_now_microamps: Option<u64>,
    pub voltage_now_microvolts: Option<u64>,
}

/// The model of [`PowerSnapshot`].
pub struct SnapshotView {
    pub supplies: Seq<SupplyView>,
    pub on_battery_only: bool,
    pub battery_capacity: Option<u8>,
    pub battery_energy_now_microwatt_hours: Option<u64>,
    pub battery_energy_empty_microwatt_hours: Option<u64>,
    pub battery_power_now_microwatts: Option<u64>,
}

impl View for SupplyKind {
    type V = SupplyKindView;

    open spec fn view(&self) -> SupplyKindView {
        match *self {
            SupplyKind::Battery => SupplyKindView::Battery,
            SupplyKind::Mains => SupplyKindView::Mains,
            SupplyKind::Usb => SupplyKindView::Usb,
            SupplyKind::Other(text) => SupplyKindView::Other(text@),
        }
    }
}

impl View for PowerSupply {
    type V = SupplyView;

    open spec fn view(&self) -> SupplyView {
        SupplyView {
            name: self.name@,
            kind: self.kind@,
            status: option_view(self.status),
            online: self.online,
            capacity: self.capacity,
            energy_now_microwatt_hours: self.energy_now_microwatt_hours,
            energy_empty_microwatt_hours: self.energy_empty_microwatt_hours,
            power_now_microwatts: self.power_now_microwatts,
            charge_now_microamp_hours: self.charge_now_microamp_hours,
            charge_empty_microamp_hours: self.charge_empty_microamp_hours,
            current_now_microamps: self.current_now_microamps,
            voltage_now_microvolts: self.voltage_now_microvolts,
        }
    }
}

/// The models of a list of supplies.
pub open spec fn supplies_view(supplies: Seq<PowerSupply>) -> Seq<SupplyView> {
    Seq::new(supplies.len(), |i: int| supplies[i]@)
}

impl View for PowerSnapshot {
    type V = SnapshotView;

    open spec fn view(&self) -> SnapshotView {
        SnapshotView {
            supplies: supplies_view(self.supplies@),
            on_battery_only: self.on_battery_only,
            battery_capacity: self.battery_capacity,
            battery_energy_now_microwatt_hours: self.battery_energy_now_microwatt_hours,
            battery_energy_empty_microwatt_hours: self.battery_energy_empty_microwatt_hours,
            battery_power_now_microwatts: self.battery_power_now_microwatts,
        }
    }
}

// ---------------------------------------------------------------------------
// Reading one supply
// ---------------------------------------------------------------------------

/// The contents of a file without the white space around them.
pub open spec fn file_text(file: Option<String>) -> Option<Seq<char>> {
    match file {
        Some(text) => Some(crate::text::trim(text@)),
        None => None,
    }
}

/// The number in a file, if the file exists and holds one.
pub open spec fn file_u64(file: Option<String>) -> Option<u64> {
    match file_text(file) {
        Some(text) => crate::text::unsigned_u64(text),
        None => None,
    }
}

/// The percentage in a file, if the file exists and holds a number that fits.
pub open spec fn file_u8(file: Option<String>) -> Option<u8> {
    match file_text(file) {
        Some(text) => crate::text::unsigned_u8(text),
        None => None,
    }
}

/// The switch in a file: `1` is on, `0` is off, and anything else is neither.
pub open spec fn file_switch(file: Option<String>) -> Option<bool> {
    match file_text(file) {
        Some(text) => if text == "1"@ {
            Some(true)
        } else if text == "0"@ {
            Some(false)
        } else {
            None
        },
        None => None,
    }
}

/// The kind that a type file names.
pub open spec fn kind_of(text: Seq<char>) -> SupplyKindView {
    if text == "Battery"@ {
        SupplyKindView::Battery
    } else if text == "Mains"@ {
        SupplyKindView::Mains
    } else if text == "USB"@ {
        SupplyKindView::Usb
    } else {
        SupplyKindView::Other(text)
    }
}

/// The supply that a set of files describes. Without a type file there is none.
pub open spec fn supply_of(files: SupplyFiles) -> Option<SupplyView> {
    match file_text(files.kind) {
        None => None,
        Some(kind) => Some(
            SupplyView {
                name: match files.directory {
                    Some(directory) => directory@,
                    None => "unknown"@,
                },
                kind: kind_of(kind),
                status: file_text(files.status),
                online: file_switch(files.online),
                capacity: file_u8(files.capacity),
                energy_now_microwatt_hours: file_u64(files.energy_now),
                energy_empty_microwatt_hours: file_u64(files.energy_empty),
                power_now_microwatts: file_u64(files.power_now),
                charge_now_microamp_hours: file_u64(files.charge_now),
                charge_empty_microamp_hours: file_u64(files.charge_empty),
                current_now_microamps: file_u64(files.current_now),
                voltage_now_microvolts: file_u64(files.voltage_now),
            },
        ),
    }
}

/// Trims the contents of a file.
pub fn read_trimmed(file: &Option<String>) -> (text: Option<String>)
    ensures
        option_view(text) == file_text(*file),
{
    match file {
        Some(raw) => {
            let chars = chars_of(raw.as_str());
            Some(string_of(trimmed(chars.as_slice())))
        },
        None => None,
    }
}

/// Reads the number in a file.
pub fn read_u64(file: &Option<String>) -> (value: Option<u64>)
    ensures
        value == file_u64(*file),
{
    match file {
        Some(raw) => {
            let chars = chars_of(raw.as_str());
            parse_u64(trimmed(chars.as_slice()))
        },
        None => None,
    }
}

/// Reads the percentage in a file.
pub fn read_u8(file: &Option<String>) -> (value: Option<u8>)
    ensures
        value == file_u8(*file),
{
    match file {
        Some(raw) => {
            let chars = chars_of(raw.as_str());
            parse_u8(trimmed(chars.as_slice()))
        },
        None => None,
    }
}

/// Reads the switch in a file.
pub fn read_switch(file: &Option<String>) -> (value: Option<bool>)
    ensures
        value == file_switch(*file),
{
    match file {
        Some(raw) => {
            let chars = chars_of(raw.as_str());
            let text = trimmed(chars.as_slice());
            if same_text(text, "1") {
                Some(true)
            } else if same_text(text, "0") {
                Some(false)
            } else {
                None
            }
        },
        None => None,
    }
}

/// The kind that a type file names.
fn supply_kind(text: &str) -> (kind: SupplyKind)
    ensures
        kind@ == kind_of(text@),
{
    let chars = chars_of(text);
    if same_text(chars.as_slice(), "Battery") {
        SupplyKind::Battery
    } else if same_text(chars.as_slice(), "Mains") {
        SupplyKind::Mains
    } else if same_text(chars.as_slice(), "USB") {
        SupplyKind::Usb
    } else {
        SupplyKind::Other(text.to_string())
    }
}

/// Reads the supply that a set of files describes.
pub fn read_supply(files: &SupplyFiles) -> (supply: Option<PowerSupply>)
    ensures
        match supply {
            Some(s) => supply_of(*files) == Some(s@),
            None => supply_of(*files) is None,
        },
{
    let kind = match read_trimmed(&files.kind) {
        Some(text) => supply_kind(text.as_str()),
        None => {
            return None;
        },
    };
    let name = match &files.directory {
        Some(directory) => directory.clone(),
        None => "unknown".to_string(),
    };
    Some(
        PowerSupply {
            name,
            kind,
            status: read_trimmed(&files.status),
            online: read_switch(&files.online),
            capacity: read_u8(&files.capacity),
            energy_now_microwatt_hours: read_u64(&files.energy_now),
            energy_empty_microwatt_hours: read_u64(&files.energy_empty),
            power_now_microwatts: read_u64(&files.power_now),
            charge_now_microamp_hours: read_u64(&files.charge_now),
            charge_empty_microamp_hours: read_u64(&files.charge_empty),
            current_now_microamps: read_u64(&files.current_now),
            voltage_now_microvolts: read_u64(&files.voltage_now),
        },
    )
}

// ---------------------------------------------------------------------------
// What one battery contributes
// ---------------------------------------------------------------------------

/// A product of micro-units in micro-units, if it fits in a `u64`.
pub open spec fn micro_product(a: u64, b: u64) -> Option<u64> {
    let value = a * b / 1_000_000;
    if value <= u64::MAX {
        Some(value as u64)
    } else {
        None
    }
}

/// `direct` where it is known, and otherwise the product of the other two, if both are known.
pub open spec fn direct_or_product(direct: Option<u64>, a: Option<u64>, b: Option<u64>) -> Option<
    u64,
> {
    match direct {
        Some(value) => Some(value),
        None => match (a, b) {
            (Some(x), Some(y)) => micro_product(x, y),
            _ => None,
        },
    }
}

/// The energy that is left in a battery.
pub open spec fn energy_now(s: SupplyView) -> Option<u64> {
    direct_or_product(
        s.energy_now_microwatt_hours,
        s.charge_now_microamp_hours,
        s.voltage_now_microvolts,
    )
}

/// The energy at which a battery counts as empty.
pub open spec fn energy_empty(s: SupplyView) -> Option<u64> {
    direct_or_product(
        s.energy_empty_microwatt_hours,
        s.charge_empty_microamp_hours,
        s.voltage_now_microvolts,
    )
}

/// The power that a battery gives.
pub open spec fn power_now(s: SupplyView) -> Option<u64> {
    direct_or_product(s.power_now_microwatts, s.current_now_microamps, s.voltage_now_microvolts)
}

/// Whether a status says that the battery is being drained.
pub open spec fn discharging(status: Option<Seq<char>>) -> bool {
    status == Some("Discharging"@)
}

/// Micro-units times micro-units in micro-units.
fn micro_units(a: u64, b: u64) -> (value: Option<u64>)
    ensures
        value == micro_product(a, b),
{
    assert(a * b <= u64::MAX * u64::MAX) by (nonlinear_arith)
        requires
            0 <= a <= u64::MAX,
            0 <= b <= u64::MAX,
    ;
    let value: u128 = (a as u128) * (b as u128) / 1_000_000;
    if value <= u64::MAX as u128 {
        Some(value as u64)
    } else {
        None
    }
}

/// The energy of a charge at a voltage, if it fits in a `u64`.
pub fn charge_to_energy_microwatt_hours(
    charge_microamp_hours: u64,
    voltage_microvolts: u64,
) -> (value: Option<u64>)
    ensures
        value == micro_product(charge_microamp_hours, voltage_microvolts),
{
    micro_units(charge_microamp_hours, voltage_microvolts)
}

/// The power of a current at a voltage, if it fits in a `u64`.
pub fn current_voltage_to_power_microwatts(
    current_microamps: u64,
    voltage_microvolts: u64,
) -> (value: Option<u64>)
    ensures
        value == micro_product(current_microamps, voltage_microvolts),
{
    micro_units(current_microamps, voltage_microvolts)
}

/// The energy that is left in a battery.
pub fn battery_energy_now(supply: &PowerSupply) -> (value: Option<u64>)
    ensures
        value == energy_now(supply@),
{
    match supply.energy_now_microwatt_hours {
        Some(value) => Some(value),
        None => match (supply.charge_now_microamp_hours, supply.voltage_now_microvolts) {
            (Some(charge), Some(voltage)) => charge_to_energy_microwatt_hours(charge, voltage),
            _ => None,
        },
    }
}

/// The energy at which a battery counts as empty.
pub fn battery_energy_empty(supply: &PowerSupply) -> (value: Option<u64>)
    ensures
        value == energy_empty(supply@),
{
    match supply.energy_empty_microwatt_hours {
        Some(value) => Some(value),
        None => match (supply.charge_empty_microamp_hours, supply.voltage_now_microvolts) {
            (Some(charge), Some(voltage)) => charge_to_energy_microwatt_hours(charge, voltage),
            _ => None,
        },
    }
}

/// The power that a battery gives.
pub fn battery_power_now(supply: &PowerSupply) -> (value: Option<u64>)
    ensures
        value == power_now(supply@),
{
    match supply.power_now_microwatts {
        Some(value) => Some(value),
        None => match (supply.current_now_microamps, supply.voltage_now_microvolts) {
            (Some(current), Some(voltage)) => current_voltage_to_power_microwatts(current, voltage),
            _ => None,
        },
    }
}

/// Whether a status says that the battery is being drained.
pub fn is_discharging(status: &Option<String>) -> (r: bool)
    ensures
        r == discharging(option_view(*status)),
{
    match status {
        Some(text) => {
            let chars = chars_of(text.as_str());
            same_text(chars.as_slice(), "Discharging")
        },
        None => false,
    }
}

// ---------------------------------------------------------------------------
// Totals over all supplies
// ---------------------------------------------------------------------------

/// Whether a supply is a battery.
pub open spec fn is_battery(s: SupplyView) -> bool {
    s.kind is Battery
}

/// Whether a supply is a battery that is being drained.
pub open spec fn is_draining_battery(s: SupplyView) -> bool {
    is_battery(s) && discharging(s.status)
}

/// Whether a supply is an external source that is connected.
pub open spec fn is_online_external(s: SupplyView) -> bool {
    (s.kind is Mains || s.kind is Usb) && s.online == Some(true)
}

/// Whether there is a battery among the supplies.
pub open spec fn has_battery(supplies: Seq<SupplyView>) -> bool {
    exists|i: int| 0 <= i < supplies.len() && is_battery(#[trigger] supplies[i])
}

/// The counting rule: a battery is being drained and no external source is connected.
pub open spec fn runs_on_battery_only(supplies: Seq<SupplyView>) -> bool {
    &&& exists|i: int| 0 <= i < supplies.len() && is_draining_battery(#[trigger] supplies[i])
    &&& !exists|i: int| 0 <= i < supplies.len() && is_online_external(#[trigger] supplies[i])
}

/// The greatest capacity that a battery reports.
pub open spec fn greatest_capacity(supplies: Seq<SupplyView>) -> Option<u8>
    decreases supplies.len(),
{
    if supplies.len() == 0 {
        None
    } else {
        let earlier = greatest_capacity(supplies.drop_last());
        let last = supplies.last();
        if !is_battery(last) {
            earlier
        } else {
            match (earlier, last.capacity) {
                (Some(a), Some(b)) => if a >= b {
                    Some(a)
                } else {
                    Some(b)
                },
                (None, b) => b,
                (a, None) => a,
            }
        }
    }
}

/// A quantity that batteries contribute to a total.
#[derive(Clone, Copy)]
pub enum Reading {
    EnergyNow,
    EnergyEmpty,
    PowerNow,
}

/// What a supply contributes to a total. Only batteries contribute, and to the power only
/// those that are being drained.
pub open spec fn contribution(s: SupplyView, reading: Reading) -> Option<u64> {
    match reading {
        Reading::EnergyNow => if is_battery(s) {
            energy_now(s)
        } else {
            None
        },
        Reading::EnergyEmpty => if is_battery(s) {
            energy_empty(s)
        } else {
            None
        },
        Reading::PowerNow => if is_draining_battery(s) {
            power_now(s)
        } else {
            None
        },
    }
}

/// The contributions of all supplies that have one, in order.
pub open spec fn contributions(supplies: Seq<SupplyView>, reading: Reading) -> Seq<u64>
    decreases supplies.len(),
{
    if supplies.len() == 0 {
        Seq::empty()
    } else {
        let earlier = contributions(supplies.drop_last(), reading);
        match contribution(supplies.last(), reading) {
            Some(value) => earlier.push(value),
            None => earlier,
        }
    }
}

/// The sum of a list of numbers.
pub open spec fn sum(values: Seq<u64>) -> nat
    decreases values.len(),
{
    if values.len() == 0 {
        0
    } else {
        sum(values.drop_last()) + values.last() as nat
    }
}

/// The sum of a list of numbers, held at the greatest `u64`; there is none for no numbers.
pub open spec fn total(values: Seq<u64>) -> Option<u64> {
    if values.len() == 0 {
        None
    } else if sum(values) > u64::MAX {
        Some(u64::MAX)
    } else {
        Some(sum(values) as u64)
    }
}

/// The snapshot of a list of supplies.
pub open spec fn snapshot_of(supplies: Seq<SupplyView>) -> SnapshotView {
    SnapshotView {
        supplies,
        on_battery_only: runs_on_battery_only(supplies),
        battery_capacity: greatest_capacity(supplies),
        battery_energy_now_microwatt_hours: total(contributions(supplies, Reading::EnergyNow)),
        battery_energy_empty_microwatt_hours: total(contributions(supplies, Reading::EnergyEmpty)),
        battery_power_now_microwatts: total(contributions(supplies, Reading::PowerNow)),
    }
}

/// Adds up a list of numbers, holding at the greatest `u64`.
pub fn sum_optional_u64(values: &Vec<u64>) -> (r: Option<u64>)
    ensures
        r == total(values@),
{
    if values.len() == 0 {
        return None;
    }
    let mut held: u64 = 0;
    let mut i: usize = 0;
    assert(values@.take(0) =~= Seq::<u64>::empty());
    while i < values.len()
        invariant
            i <= values@.len(),
            held == (if sum(values@.take(i as int)) > u64::MAX {
                u64::MAX as nat
            } else {
                sum(values@.take(i as int))
            }),
        decreases values@.len() - i,
    {
        assert(values@.take(i + 1).drop_last() =~= values@.take(i as int));
        held = held.saturating_add(values[i]);
        i += 1;
    }
    assert(values@.take(values@.len() as int) =~= values@);
    Some(held)
}

/// What one supply contributes to a total.
fn contribution_of(supply: &PowerSupply, reading: Reading) -> (value: Option<u64>)
    ensures
        value == contribution(supply@, reading),
{
    match &supply.kind {
        SupplyKind::Battery => match reading {
            Reading::EnergyNow => battery_energy_now(supply),
            Reading::EnergyEmpty => battery_energy_empty(supply),
            Reading::PowerNow => if is_discharging(&supply.status) {
                battery_power_now(supply)
            } else {
                None
            },
        },
        _ => None,
    }
}

/// Collects what the supplies contribute to a total.
fn collect_contributions(supplies: &Vec<PowerSupply>, reading: Reading) -> (values: Vec<u64>)
    ensures
        values@ == contributions(supplies_view(supplies@), reading),
{
    let ghost views = supplies_view(supplies@);
    let mut values: Vec<u64> = Vec::new();
    let mut i: usize = 0;
    assert(views.take(0) =~= Seq::<SupplyView>::empty());
    while i < supplies.len()
        invariant
            i <= supplies@.len(),
            views == supplies_view(supplies@),
            values@ == contributions(views.take(i as int), reading),
        decreases supplies@.len() - i,
    {
        assert(views.take(i + 1).drop_last() =~= views.take(i as int));
        match contribution_of(&supplies[i], reading) {
            Some(value) => values.push(value),
            None => {},
        }
        i += 1;
    }
    assert(views.take(supplies@.len() as int) =~= views);
    values
}

/// Finds the greatest capacity that a battery reports.
fn find_greatest_capacity(supplies: &Vec<PowerSupply>) -> (r: Option<u8>)
    ensures
        r == greatest_capacity(supplies_view(supplies@)),
{
    let ghost views = supplies_view(supplies@);
    let mut greatest: Option<u8> = None;
    let mut i: usize = 0;
    assert(views.take(0) =~= Seq::<SupplyView>::empty());
    while i < supplies.len()
        invariant
            i <= supplies@.len(),
            views == supplies_view(supplies@),
            greatest == greatest_capacity(views.take(i as int)),
        decreases supplies@.len() - i,
    {
        assert(views.take(i + 1).drop_last() =~= views.take(i as int));
        let supply = &supplies[i];
        if matches!(supply.kind, SupplyKind::Battery) {
            greatest = match (greatest, supply.capacity) {
                (Some(a), Some(b)) => if a >= b {
                    Some(a)
                } else {
                    Some(b)
                },
                (None, b) => b,
                (a, None) => a,
            };
        }
        i += 1;
    }
    assert(views.take(supplies@.len() as int) =~= views);
    greatest
}

/// Puts the supplies of a machine together. Without a battery there is no snapshot.
pub fn power_snapshot(supplies: Vec<PowerSupply>) -> (r: Result<PowerSnapshot, SnapshotError>)
    ensures
        match r {
            Ok(snapshot) => {
                &&& has_battery(supplies_view(supplies@))
                &&& snapshot@ == snapshot_of(supplies_view(supplies@))
                &&& snapshot.supplies == supplies
            },
            Err(SnapshotError::NoBattery) => !has_battery(supplies_view(supplies@)),
        },
{
    let ghost views = supplies_view(supplies@);
    let mut found_battery = false;
    let mut found_draining = false;
    let mut found_external = false;
    let mut i: usize = 0;
    while i < supplies.len()
        invariant
            i <= supplies@.len(),
            views == supplies_view(supplies@),
            found_battery == exists|j: int| 0 <= j < i && is_battery(#[trigger] views[j]),
            found_draining == exists|j: int| 0 <= j < i && is_draining_battery(#[trigger] views[j]),
            found_external == exists|j: int| 0 <= j < i && is_online_external(#[trigger] views[j]),
        decreases supplies@.len() - i,
    {
        let supply = &supplies[i];
        assert(views[i as int] == supply@);
        match &supply.kind {
            SupplyKind::Battery => {
                found_battery = true;
                if is_discharging(&supply.status) {
                    found_draining = true;
                }
            },
            SupplyKind::Mains | SupplyKind::Usb => {
                if let Some(online) = supply.online {
                    if online {
                        found_external = true;
                    }
                }
            },
            SupplyKind::Other(_) => {},
        }
        i += 1;
    }
    if !found_battery {
        return Err(SnapshotError::NoBattery);
    }
    let battery_capacity = find_greatest_capacity(&supplies);
    let energy_now = sum_optional_u64(&collect_contributions(&supplies, Reading::EnergyNow));
    let energy_empty = sum_optional_u64(&collect_contributions(&supplies, Reading::EnergyEmpty));
    let power_now = sum_optional_u64(&collect_contributions(&supplies, Reading::PowerNow));
    Ok(
        PowerSnapshot {
            supplies,
            on_battery_only: found_draining && !found_external,
            battery_capacity,
            battery_energy_now_microwatt_hours: energy_now,
            battery_energy_empty_microwatt_hours: energy_empty,
            battery_power_now_microwatts: power_now,
        },
    )
}

/// The supplies that a list of file sets describes, in order.
pub open spec fn supplies_of(entries: Seq<SupplyFiles>) -> Seq<SupplyView>
    decreases entries.len(),
{
    if entries.len() == 0 {
        Seq::empty()
    } else {
        let earlier = supplies_of(entries.drop_last());
        match supply_of(entries.last()) {
            Some(supply) => earlier.push(supply),
            None => earlier,
        }
    }
}

/// Takes a snapshot from the files of all supplies.
pub fn power_snapshot_from_files(entries: &Vec<SupplyFiles>) -> (r: Result<
    PowerSnapshot,
    SnapshotError,
>)
    ensures
        match r {
            Ok(snapshot) => {
                &&& has_battery(supplies_of(entries@))
                &&& snapshot@ == snapshot_of(supplies_of(entries@))
            },
            Err(SnapshotError::NoBattery) => !has_battery(supplies_of(entries@)),
        },
{
    let mut supplies: Vec<PowerSupply> = Vec::new();
    let mut i: usize = 0;
    assert(supplies_view(supplies@) =~= supplies_of(entries@.take(0)));
    while i < entries.len()
        invariant
            i <= entries@.len(),
            supplies_view(supplies@) == supplies_of(entries@.take(i as int)),
        decreases entries@.len() - i,
    {
        assert(entries@.take(i + 1).drop_last() =~= entries@.take(i as int));
        let ghost before = supplies@;
        match read_supply(&entries[i]) {
            Some(supply) => {
                supplies.push(supply);
                assert(supplies_view(supplies@) =~= supplies_view(before).push(supply@));
            },
            None => {},
        }
        i += 1;
    }
    assert(entries@.take(entries@.len() as int) =~= entries@);
    power_snapshot(supplies)
}

impl SnapshotError {
    /// The message of the error.
    pub open spec fn text(self) -> Seq<char> {
        "no battery power supply found"@
    }

    /// The message of the error.
    pub fn message(&self) -> (r: String)
        ensures
            r@ == self.text(),
    {
        "no battery power supply found".to_string()
    }
}

/// How a power state is labelled.
pub open spec fn power_state_label(on_battery_only: bool) -> Seq<char> {
    if on_battery_only {
        "battery"@
    } else {
        "external-or-idle"@
    }
}

impl PowerSnapshot {
    /// The label of the power state.
    pub fn state_label(&self) -> (label: &'static str)
        ensures
            label@ == power_state_label(self.on_battery_only),
    {
        if self.on_battery_only {
            "battery"
        } else {
            "external-or-idle"
        }
    }
}

// ---------------------------------------------------------------------------
// Laws
// ---------------------------------------------------------------------------

/// Any external source that is connected stops the counting, whatever the batteries do.
pub proof fn connected_source_blocks_counting(supplies: Seq<SupplyView>, i: int)
    requires
        0 <= i < supplies.len(),
        is_online_external(supplies[i]),
    ensures
        !snapshot_of(supplies).on_battery_only,
{
}

/// Disconnecting every external source leaves the batteries to decide: the time counts
/// exactly if one of them is being drained.
pub proof fn batteries_decide_alone(supplies: Seq<SupplyView>)
    requires
        forall|i: int| 0 <= i < supplies.len() ==> !is_online_external(#[trigger] supplies[i]),
    ensures
        snapshot_of(supplies).on_battery_only == exists|i: int|
            0 <= i < supplies.len() && is_draining_battery(#[trigger] supplies[i]),
{
}

/// The capacity of a snapshot is that of a battery, and no battery reports more. There is
/// none exactly if no battery reports any.
pub proof fn capacity_is_the_greatest(supplies: Seq<SupplyView>)
    ensures
        match snapshot_of(supplies).battery_capacity {
            Some(greatest) => {
                &&& exists|i: int|
                    0 <= i < supplies.len() && is_battery(#[trigger] supplies[i])
                        && supplies[i].capacity == Some(greatest)
                &&& forall|i: int|
                    0 <= i < supplies.len() && is_battery(#[trigger] supplies[i])
                        && supplies[i].capacity is Some ==> supplies[i].capacity->0 <= greatest
            },
            None => forall|i: int|
                0 <= i < supplies.len() && is_battery(#[trigger] supplies[i])
                    ==> supplies[i].capacity is None,
        },
    decreases supplies.len(),
{
    if supplies.len() > 0 {
        let earlier = supplies.drop_last();
        let last = supplies.len() - 1;
        capacity_is_the_greatest(earlier);
        assert(forall|i: int| 0 <= i < last ==> #[trigger] supplies[i] == earlier[i]);
        match greatest_capacity(supplies) {
            Some(greatest) => {
                if is_battery(supplies[last]) && supplies[last].capacity == Some(greatest) {
                    assert(is_battery(supplies[last]));
                } else {
                    let i = choose|i: int|
                        0 <= i < earlier.len() && is_battery(#[trigger] earlier[i])
                            && earlier[i].capacity == Some(greatest);
                    assert(is_battery(supplies[i]));
                }
            },
            None => {},
        }
    }
}

/// Taking one supply out takes its contribution out of the total.
proof fn lemma_contributions_remove(supplies: Seq<SupplyView>, reading: Reading, i: int)
    requires
        0 <= i < supplies.len(),
    ensures
        contributions(supplies, reading).len() == contributions(supplies.remove(i), reading).len()
            + (if contribution(supplies[i], reading) is Some {
            1int
        } else {
            0
        }),
        sum(contributions(supplies, reading)) == sum(contributions(supplies.remove(i), reading)) + (
        match contribution(supplies[i], reading) {
            Some(value) => value as int,
            None => 0,
        }),
    decreases supplies.len(),
{
    let last = supplies.len() - 1;
    lemma_sum_push(supplies, reading);
    if i == last {
        assert(supplies.remove(i) =~= supplies.drop_last());
    } else {
        let rest = supplies.remove(i);
        lemma_contributions_remove(supplies.drop_last(), reading, i);
        lemma_sum_push(rest, reading);
        assert(rest.drop_last() =~= supplies.drop_last().remove(i));
    }
}

/// The last supply adds its contribution to the total.
proof fn lemma_sum_push(supplies: Seq<SupplyView>, reading: Reading)
    requires
        supplies.len() > 0,
    ensures
        sum(contributions(supplies, reading)) == sum(
            contributions(supplies.drop_last(), reading),
        ) + (match contribution(supplies.last(), reading) {
            Some(value) => value as int,
            None => 0,
        }),
{
    let earlier = contributions(supplies.drop_last(), reading);
    match contribution(supplies.last(), reading) {
        Some(value) => assert(earlier.push(value).drop_last() =~= earlier),
        None => {},
    }
}

/// The same supplies in another order contribute the same.
proof fn lemma_contributions_reordered(a: Seq<SupplyView>, b: Seq<SupplyView>, reading: Reading)
    requires
        a.to_multiset() == b.to_multiset(),
    ensures
        contributions(a, reading).len() == contributions(b, reading).len(),
        sum(contributions(a, reading)) == sum(contributions(b, reading)),
    decreases a.len(),
{
    broadcast use vstd::seq_lib::group_to_multiset_ensures;

    assert(a.to_multiset().len() == a.len());
    assert(b.to_multiset().len() == b.len());
    if a.len() > 0 {
        let x = a.last();
        assert(a.to_multiset().count(x) > 0) by {
            assert(a.contains(x));
        }
        assert(b.contains(x));
        let j = choose|j: int| 0 <= j < b.len() && b[j] == x;
        let i = a.len() - 1;
        assert(a.remove(i).to_multiset() =~= a.to_multiset().remove(x));
        assert(b.remove(j).to_multiset() =~= b.to_multiset().remove(x));
        lemma_contributions_reordered(a.remove(i), b.remove(j), reading);
        lemma_contributions_remove(a, reading, i);
        lemma_contributions_remove(b, reading, j);
    }
}

/// Every supply of a list stands in the same list in another order.
proof fn lemma_same_member(a: Seq<SupplyView>, b: Seq<SupplyView>, i: int) -> (j: int)
    requires
        a.to_multiset() == b.to_multiset(),
        0 <= i < a.len(),
    ensures
        0 <= j < b.len(),
        b[j] == a[i],
{
    broadcast use vstd::seq_lib::group_to_multiset_ensures;

    assert(a.contains(a[i]));
    assert(a.to_multiset().count(a[i]) > 0);
    assert(b.to_multiset().count(a[i]) > 0);
    choose|j: int| 0 <= j < b.len() && b[j] == a[i]
}

/// What is found among the supplies is found among them in another order.
proof fn lemma_found_reordered(a: Seq<SupplyView>, b: Seq<SupplyView>)
    requires
        a.to_multiset() == b.to_multiset(),
    ensures
        has_battery(a) ==> has_battery(b),
        (exists|i: int| 0 <= i < a.len() && is_draining_battery(#[trigger] a[i])) ==> (exists|i: int|
            0 <= i < b.len() && is_draining_battery(#[trigger] b[i])),
        (exists|i: int| 0 <= i < a.len() && is_online_external(#[trigger] a[i])) ==> (exists|i: int|
            0 <= i < b.len() && is_online_external(#[trigger] b[i])),
{
    if has_battery(a) {
        let i = choose|i: int| 0 <= i < a.len() && is_battery(#[trigger] a[i]);
        let j = lemma_same_member(a, b, i);
        assert(is_battery(b[j]));
    }
    if exists|i: int| 0 <= i < a.len() && is_draining_battery(#[trigger] a[i]) {
        let i = choose|i: int| 0 <= i < a.len() && is_draining_battery(#[trigger] a[i]);
        let j = lemma_same_member(a, b, i);
        assert(is_draining_battery(b[j]));
    }
    if exists|i: int| 0 <= i < a.len() && is_online_external(#[trigger] a[i]) {
        let i = choose|i: int| 0 <= i < a.len() && is_online_external(#[trigger] a[i]);
        let j = lemma_same_member(a, b, i);
        assert(is_online_external(b[j]));
    }
}

/// A capacity that is reported is not above the greatest one in another order.
proof fn lemma_capacity_reordered(a: Seq<SupplyView>, b: Seq<SupplyView>)
    requires
        a.to_multiset() == b.to_multiset(),
    ensures
        greatest_capacity(a) is Some ==> greatest_capacity(b) is Some && greatest_capacity(a)->0
            <= greatest_capacity(b)->0,
{
    capacity_is_the_greatest(a);
    capacity_is_the_greatest(b);
    if let Some(greatest) = greatest_capacity(a) {
        let i = choose|i: int|
            0 <= i < a.len() && is_battery(#[trigger] a[i]) && a[i].capacity == Some(greatest);
        let j = lemma_same_member(a, b, i);
        assert(is_battery(b[j]));
    }
}

/// What a snapshot says of the batteries does not depend on the order in which the supplies
/// are listed.
pub proof fn order_of_supplies_does_not_matter(a: Seq<SupplyView>, b: Seq<SupplyView>)
    requires
        a.to_multiset() == b.to_multiset(),
    ensures
        has_battery(a) == has_battery(b),
        snapshot_of(a) == (SnapshotView { supplies: a, ..snapshot_of(b) }),
{
    lemma_found_reordered(a, b);
    lemma_found_reordered(b, a);
    lemma_capacity_reordered(a, b);
    lemma_capacity_reordered(b, a);
    lemma_contributions_reordered(a, b, Reading::EnergyNow);
    lemma_contributions_reordered(a, b, Reading::EnergyEmpty);
    lemma_contributions_reordered(a, b, Reading::PowerNow);
}

/// The counting rule on the fields of the supplies: the machine runs on battery only exactly if
/// some battery says `Discharging` and no mains or USB source is online. Supplies of other
/// kinds, and sources that do not say whether they are online, have no say.
pub proof fn counting_rule_holds(supplies: Seq<SupplyView>)
    ensures
        forall|i: int|
            0 <= i < supplies.len() && (#[trigger] supplies[i]).online == Some(true) && (
            supplies[i].kind is Mains || supplies[i].kind is Usb) ==> !snapshot_of(
                supplies,
            ).on_battery_only,
        forall|i: int|
            #![trigger supplies[i]]
            0 <= i < supplies.len() && supplies[i].kind is Battery && supplies[i].status == Some(
                "Discharging"@,
            ) && (forall|j: int|
                0 <= j < supplies.len() && ((#[trigger] supplies[j]).kind is Mains
                    || supplies[j].kind is Usb) ==> supplies[j].online != Some(true))
                ==> snapshot_of(supplies).on_battery_only,
        snapshot_of(supplies).on_battery_only ==> exists|i: int|
            0 <= i < supplies.len() && (#[trigger] supplies[i]).kind is Battery
                && supplies[i].status == Some("Discharging"@),
        has_battery(supplies) == exists|i: int|
            0 <= i < supplies.len() && (#[trigger] supplies[i]).kind is Battery,
        snapshot_of(supplies).supplies == supplies,
{
    assert forall|i: int|
        0 <= i < supplies.len() && (#[trigger] supplies[i]).online == Some(true) && (
        supplies[i].kind is Mains || supplies[i].kind is Usb) implies !snapshot_of(
        supplies,
    ).on_battery_only by {
        assert(is_online_external(supplies[i]));
    }
    assert forall|i: int|
        #![trigger supplies[i]]
        0 <= i < supplies.len() && supplies[i].kind is Battery && supplies[i].status == Some(
            "Discharging"@,
        ) && (forall|j: int|
            0 <= j < supplies.len() && ((#[trigger] supplies[j]).kind is Mains
                || supplies[j].kind is Usb) ==> supplies[j].online != Some(
                true,
            )) implies snapshot_of(supplies).on_battery_only by {
        assert(is_draining_battery(supplies[i]));
    }
    if snapshot_of(supplies).on_battery_only {
        let i = choose|i: int| 0 <= i < supplies.len() && is_draining_battery(#[trigger] supplies[i]);
        assert(supplies[i].kind is Battery);
    }
    if exists|i: int| 0 <= i < supplies.len() && (#[trigger] supplies[i]).kind is Battery {
        let i = choose|i: int| 0 <= i < supplies.len() && (#[trigger] supplies[i]).kind is Battery;
        assert(is_battery(supplies[i]));
    }
}

/// No battery reports more than the capacity of the snapshot, and some battery reports just
/// that. Where there is none, no battery reports any. Other supplies have no say.
pub proof fn capacity_is_that_of_the_fullest_battery(supplies: Seq<SupplyView>)
    ensures
        forall|i: int|
            0 <= i < supplies.len() && (#[trigger] supplies[i]).kind is Battery
                && supplies[i].capacity is Some ==> snapshot_of(supplies).battery_capacity is Some
                && supplies[i].capacity->0 <= snapshot_of(supplies).battery_capacity->0,
        snapshot_of(supplies).battery_capacity is Some ==> exists|i: int|
            0 <= i < supplies.len() && (#[trigger] supplies[i]).kind is Battery
                && supplies[i].capacity == snapshot_of(supplies).battery_capacity,
{
    capacity_is_the_greatest(supplies);
    assert forall|i: int|
        0 <= i < supplies.len() && (#[trigger] supplies[i]).kind is Battery
            && supplies[i].capacity is Some implies snapshot_of(supplies).battery_capacity is Some
        && supplies[i].capacity->0 <= snapshot_of(supplies).battery_capacity->0 by {
        assert(is_battery(supplies[i]));
    }
    if let Some(greatest) = snapshot_of(supplies).battery_capacity {
        let i = choose|i: int|
            0 <= i < supplies.len() && is_battery(#[trigger] supplies[i]) && supplies[i].capacity
                == Some(greatest);
        assert(supplies[i].kind is Battery);
    }
}

/// A total with one more reading in it, held at the greatest `u64`.
pub open spec fn with_added(before: Option<u64>, reading: int) -> Option<u64> {
    Some(
        vstd::math::min(
            (match before {
                Some(total) => total as int,
                None => 0,
            }) + reading,
            u64::MAX as int,
        ) as u64,
    )
}

/// One more supply adds its own readings to the totals. A battery adds the energy that it
/// reports, or the charge times the voltage in millionths where it reports none; likewise for
/// the energy at which it is empty; and the power, or the current times the voltage, only while
/// it says `Discharging`. What cannot be worked out in 64 bits, and what is no battery, adds
/// nothing. Without any supply there are no totals.
pub proof fn every_battery_adds_its_readings(supplies: Seq<SupplyView>, s: SupplyView)
    ensures
        ({
            let before = snapshot_of(supplies);
            let after = snapshot_of(supplies.push(s));
            &&& s.kind !is Battery ==> {
                &&& after.battery_energy_now_microwatt_hours
                    == before.battery_energy_now_microwatt_hours
                &&& after.battery_energy_empty_microwatt_hours
                    == before.battery_energy_empty_microwatt_hours
                &&& after.battery_power_now_microwatts == before.battery_power_now_microwatts
            }
            &&& s.status != Some("Discharging"@) ==> after.battery_power_now_microwatts
                == before.battery_power_now_microwatts
        }),
        s.kind is Battery ==> match s.energy_now_microwatt_hours {
            Some(reading) => snapshot_of(supplies.push(s)).battery_energy_now_microwatt_hours
                == with_added(snapshot_of(supplies).battery_energy_now_microwatt_hours, reading as int),
            None => match (s.charge_now_microamp_hours, s.voltage_now_microvolts) {
                (Some(amount), Some(voltage)) if amount * voltage / 1_000_000 <= u64::MAX =>
                    snapshot_of(supplies.push(s)).battery_energy_now_microwatt_hours == with_added(
                    snapshot_of(supplies).battery_energy_now_microwatt_hours,
                    amount * voltage / 1_000_000,
                ),
                _ => snapshot_of(supplies.push(s)).battery_energy_now_microwatt_hours
                    == snapshot_of(supplies).battery_energy_now_microwatt_hours,
            },
        },
        s.kind is Battery ==> match s.energy_empty_microwatt_hours {
            Some(reading) => snapshot_of(supplies.push(s)).battery_energy_empty_microwatt_hours
                == with_added(snapshot_of(supplies).battery_energy_empty_microwatt_hours, reading as int),
            None => match (s.charge_empty_microamp_hours, s.voltage_now_microvolts) {
                (Some(amount), Some(voltage)) if amount * voltage / 1_000_000 <= u64::MAX =>
                    snapshot_of(supplies.push(s)).battery_energy_empty_microwatt_hours == with_added(
                    snapshot_of(supplies).battery_energy_empty_microwatt_hours,
                    amount * voltage / 1_000_000,
                ),
                _ => snapshot_of(supplies.push(s)).battery_energy_empty_microwatt_hours
                    == snapshot_of(supplies).battery_energy_empty_microwatt_hours,
            },
        },
        s.kind is Battery && s.status == Some("Discharging"@) ==> match s.power_now_microwatts {
            Some(reading) => snapshot_of(supplies.push(s)).battery_power_now_microwatts
                == with_added(snapshot_of(supplies).battery_power_now_microwatts, reading as int),
            None => match (s.current_now_microamps, s.voltage_now_microvolts) {
                (Some(amount), Some(voltage)) if amount * voltage / 1_000_000 <= u64::MAX =>
                    snapshot_of(supplies.push(s)).battery_power_now_microwatts == with_added(
                    snapshot_of(supplies).battery_power_now_microwatts,
                    amount * voltage / 1_000_000,
                ),
                _ => snapshot_of(supplies.push(s)).battery_power_now_microwatts
                    == snapshot_of(supplies).battery_power_now_microwatts,
            },
        },
        ({
            let nothing = snapshot_of(Seq::empty());
            &&& nothing.battery_energy_now_microwatt_hours is None
            &&& nothing.battery_energy_empty_microwatt_hours is None
            &&& nothing.battery_power_now_microwatts is None
            &&& nothing.battery_capacity is None
        }),
{
    let all = supplies.push(s);
    assert(all.drop_last() =~= supplies);
    lemma_sum_push(all, Reading::EnergyNow);
    lemma_sum_push(all, Reading::EnergyEmpty);
    lemma_sum_push(all, Reading::PowerNow);
    lemma_empty_sum(contributions(supplies, Reading::EnergyNow));
    lemma_empty_sum(contributions(supplies, Reading::EnergyEmpty));
    lemma_empty_sum(contributions(supplies, Reading::PowerNow));
}

proof fn lemma_empty_sum(values: Seq<u64>)
    ensures
        values.len() == 0 ==> sum(values) == 0,
{
}

/// Each file fills its own field and no other. The kind goes by the words `Battery`, `Mains` and
/// `USB`, a switch is on at `1` and off at `0`, white space around a text does not count, and
/// what is no number that fits is not known. A directory without a type file is no supply.
pub proof fn files_fill_their_own_fields(files: SupplyFiles)
    ensures
        files.kind is None ==> supply_of(files) is None,
        files.kind is Some ==> supply_of(files) is Some && ({
            let s = supply_of(files)->0;
            let kind = crate::text::trim(files.kind->0@);
            &&& kind == "Battery"@ ==> s.kind is Battery
            &&& kind == "Mains"@ ==> s.kind is Mains
            &&& kind == "USB"@ ==> s.kind is Usb
            &&& kind != "Battery"@ && kind != "Mains"@ && kind != "USB"@ ==> s.kind
                == SupplyKindView::Other(kind)
            &&& files.directory matches Some(name) ==> s.name == name@
            &&& files.directory is None ==> s.name == "unknown"@
            &&& s.status == (match files.status {
                Some(text) => Some(crate::text::trim(text@)),
                None => None,
            })
            &&& files.online is None ==> s.online is None
            &&& files.online matches Some(text) ==> {
                &&& s.online == Some(true) <==> crate::text::trim(text@) == "1"@
                &&& s.online == Some(false) <==> crate::text::trim(text@) == "0"@
            }
            &&& s.capacity == (match files.capacity {
                Some(text) => crate::text::unsigned_u8(crate::text::trim(text@)),
                None => None,
            })
            &&& s.energy_now_microwatt_hours == number_in(files.energy_now)
            &&& s.energy_empty_microwatt_hours == number_in(files.energy_empty)
            &&& s.power_now_microwatts == number_in(files.power_now)
            &&& s.charge_now_microamp_hours == number_in(files.charge_now)
            &&& s.charge_empty_microamp_hours == number_in(files.charge_empty)
            &&& s.current_now_microamps == number_in(files.current_now)
            &&& s.voltage_now_microvolts == number_in(files.voltage_now)
        }),
{
    reveal_strlit("Battery");
    reveal_strlit("Mains");
    reveal_strlit("USB");
    reveal_strlit("1");
    reveal_strlit("0");
    assert("Battery"@.len() == 7 && "Mains"@.len() == 5 && "USB"@.len() == 3);
    assert("1"@[0] == '1' && "0"@[0] == '0');
}

/// The number that a file holds.
pub open spec fn number_in(file: Option<String>) -> Option<u64> {
    match file {
        Some(text) => crate::text::unsigned_u64(crate::text::trim(text@)),
        None => None,
    }
}

/// A file that holds a number and a line feed behind it gives that number, as far as it fits.
pub proof fn written_number_reads_back(text: String, n: nat)
    requires
        text@ == crate::text::decimal(n).push('\n'),
    ensures
        n <= u64::MAX ==> file_u64(Some(text)) == Some(n as u64),
        n > u64::MAX ==> file_u64(Some(text)) is None,
        n <= u8::MAX ==> file_u8(Some(text)) == Some(n as u8),
        n > u8::MAX ==> file_u8(Some(text)) is None,
{
    let digits = crate::text::decimal(n);
    crate::text::lemma_decimal_digits(n);
    crate::text::lemma_decimal_value(n);
    assert(crate::text::is_digit(digits[0]));
    assert(crate::text::is_digit(digits.last()));
    assert(text@[0] == digits[0]);
    assert(crate::text::trim_start(text@) == text@);
    assert(text@.drop_last() =~= digits);
    assert(crate::text::trim_end(text@) == crate::text::trim_end(digits));
    assert(crate::text::trim(text@) == digits);
}

/// One more directory adds the supply that its files describe at the end of the list, or
/// nothing where it has no type file.
pub proof fn directories_are_read_in_order(entries: Seq<SupplyFiles>, files: SupplyFiles)
    ensures
        supplies_of(Seq::empty()).len() == 0,
        files.kind is None ==> supplies_of(entries.push(files)) == supplies_of(entries),
        files.kind is Some ==> supplies_of(entries.push(files)) == supplies_of(entries).push(
            supply_of(files)->0,
        ),
{
    assert(entries.push(files).drop_last() =~= entries);
}

/// An energy or a power that is worked out is the product of the two readings in millionths,
/// rounded down, and is unknown exactly where that does not fit in a `u64`.
pub proof fn products_are_in_millionths(a: u64, b: u64)
    ensures
        micro_product(a, b) matches Some(value) ==> 0 <= a * b - 1_000_000 * value < 1_000_000,
        micro_product(a, b) is None ==> a * b >= 1_000_000 * (u64::MAX + 1),
{
}

} // verus!
