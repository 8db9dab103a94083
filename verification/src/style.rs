//! Pieces of terminal output that every layout shares.

use crate::text::{decimal_string, push_decimal, push_repeated};
use vstd::prelude::*;

verus! {

// ---------------------------------------------------------------------------
// Colours
// ---------------------------------------------------------------------------

/// `value` between the escape sequences that switch a graphic rendition on and off.
pub open spec fn colored(value: Seq<char>, code: Seq<char>) -> Seq<char> {
    "\x1b["@ + code + "m"@ + value + "\x1b[0m"@
}

/// `value` in bold.
pub open spec fn bold(value: Seq<char>) -> Seq<char> {
    colored(value, "1"@)
}

/// `value` in grey.
pub open spec fn muted(value: Seq<char>) -> Seq<char> {
    colored(value, "90"@)
}

/// The colour of a capacity: green, yellow or red, and grey for none.
pub open spec fn capacity_code(capacity: Option<u8>) -> Seq<char> {
    match capacity {
        Some(value) => if value >= 70 {
            "32"@
        } else if value >= 30 {
            "33"@
        } else {
            "31"@
        },
        None => "90"@,
    }
}

/// Switches a graphic rendition on for a value.
pub fn color(value: &str, code: &str) -> (r: String)
    ensures
        r@ == colored(value@, code@),
{
    let mut out = "\x1b[".to_string();
    out.append(code);
    out.append("m");
    out.append(value);
    out.append("\x1b[0m");
    out
}

/// Shows a value in bold.
pub fn color_bold(value: &str) -> (r: String)
    ensures
        r@ == bold(value@),
{
    color(value, "1")
}

/// Shows a value in grey.
pub fn color_muted(value: &str) -> (r: String)
    ensures
        r@ == muted(value@),
{
    color(value, "90")
}

/// Shows a label in the colour of a power state: yellow on battery, green otherwise.
pub fn color_state(label: &str, on_battery_only: bool) -> (r: String)
    ensures
        r@ == state_color(label@, on_battery_only),
{
    if on_battery_only {
        color(label, "33")
    } else {
        color(label, "32")
    }
}

/// A label in the colour of a power state.
pub open spec fn state_color(label: Seq<char>, on_battery_only: bool) -> Seq<char> {
    colored(label, if on_battery_only { "33"@ } else { "32"@ })
}

/// A label with a dot before it, in the colour of a power state.
pub open spec fn badge(label: Seq<char>, on_battery_only: bool) -> Seq<char> {
    state_color("● "@ + label, on_battery_only)
}

/// Shows a label with a dot before it, in the colour of a power state.
pub fn state_badge(label: &str, on_battery_only: bool) -> (r: String)
    ensures
        r@ == badge(label@, on_battery_only),
{
    let mut text = "● ".to_string();
    text.append(label);
    color_state(text.as_str(), on_battery_only)
}

// ---------------------------------------------------------------------------
// Durations
// ---------------------------------------------------------------------------

/// A number with at least two digits.
pub open spec fn two_digits(n: nat) -> Seq<char> {
    if n < 10 {
        "0"@ + crate::text::decimal(n)
    } else {
        crate::text::decimal(n)
    }
}

/// A number of seconds as hours, minutes and seconds.
pub open spec fn duration_text(total: u64) -> Seq<char> {
    two_digits((total / 3600) as nat) + ":"@ + two_digits((total % 3600 / 60) as nat) + ":"@
        + two_digits((total % 60) as nat)
}

/// Writes a number with at least two digits.
fn format_two_digits(n: u64) -> (r: String)
    ensures
        r@ == two_digits(n as nat),
{
    if n < 10 {
        let mut out = "0".to_string();
        push_decimal(&mut out, n);
        out
    } else {
        decimal_string(n)
    }
}

/// Writes a number of seconds as hours, minutes and seconds.
pub fn format_duration(total: u64) -> (r: String)
    ensures
        r@ == duration_text(total),
{
    let hours: u64 = total / 3600;
    let minutes: u64 = total % 3600 / 60;
    let seconds: u64 = total % 60;
    let mut out = format_two_digits(hours);
    out.append(":");
    out.append(format_two_digits(minutes).as_str());
    out.append(":");
    out.append(format_two_digits(seconds).as_str());
    out
}

// ---------------------------------------------------------------------------
// Capacities
// ---------------------------------------------------------------------------

/// A capacity in percent, or the word for none.
pub open spec fn capacity_text(capacity: Option<u8>) -> Seq<char> {
    match capacity {
        Some(value) => crate::text::decimal(value as nat) + "%"@,
        None => "unknown"@,
    }
}

/// How many cells a capacity bar has.
pub open spec fn bar_width(compact: bool) -> nat {
    if compact {
        10
    } else {
        18
    }
}

/// How many cells of a capacity bar are filled: its share of the width, rounded to the
/// nearest cell. More than full counts as full.
pub open spec fn bar_filled(capacity: u8, compact: bool) -> nat {
    let percent: int = if capacity < 100 { capacity as int } else { 100 };
    ((percent * bar_width(compact) + 50) / 100) as nat
}

/// A capacity as a bar of filled and empty cells.
pub open spec fn bar_text(capacity: u8, compact: bool) -> Seq<char> {
    crate::text::repeated('▰', bar_filled(capacity, compact)) + crate::text::repeated(
        '▱',
        (bar_width(compact) - bar_filled(capacity, compact)) as nat,
    )
}

/// A compact bar and the capacity behind it, both in the colour of the capacity.
pub open spec fn meter_text(capacity: Option<u8>) -> Seq<char> {
    match capacity {
        Some(value) => colored(bar_text(value, true), capacity_code(capacity)) + " "@ + colored(
            capacity_text(capacity),
            capacity_code(capacity),
        ),
        None => colored(capacity_text(capacity), capacity_code(capacity)),
    }
}

/// A wide bar and the capacity behind it, without colours.
pub open spec fn plain_meter_text(capacity: Option<u8>) -> Seq<char> {
    match capacity {
        Some(value) => bar_text(value, false) + " "@ + capacity_text(capacity),
        None => capacity_text(capacity),
    }
}

/// Writes a capacity in percent.
pub fn format_capacity(capacity: Option<u8>) -> (r: String)
    ensures
        r@ == capacity_text(capacity),
{
    match capacity {
        Some(value) => {
            let mut out = decimal_string(value as u64);
            out.append("%");
            out
        },
        None => "unknown".to_string(),
    }
}

/// Writes a capacity as a bar.
pub fn capacity_bar(capacity: u8, compact: bool) -> (r: String)
    ensures
        r@ == bar_text(capacity, compact),
{
    let width: usize = if compact { 10 } else { 18 };
    let percent: usize = if capacity < 100 { capacity as usize } else { 100 };
    let filled: usize = if compact { (percent * 10 + 50) / 100 } else { (percent * 18 + 50) / 100 };
    let mut out = String::new();
    push_repeated(&mut out, '▰', filled);
    push_repeated(&mut out, '▱', width - filled);
    assert(out@ =~= bar_text(capacity, compact));
    out
}

/// The colour of a capacity.
fn code_of_capacity(capacity: Option<u8>) -> (code: &'static str)
    ensures
        code@ == capacity_code(capacity),
{
    match capacity {
        Some(value) => if value >= 70 {
            "32"
        } else if value >= 30 {
            "33"
        } else {
            "31"
        },
        None => "90",
    }
}

/// Shows a capacity bar in the colour of the capacity.
pub fn color_capacity_bar(capacity: u8, compact: bool) -> (r: String)
    ensures
        r@ == colored(bar_text(capacity, compact), capacity_code(Some(capacity))),
{
    color(capacity_bar(capacity, compact).as_str(), code_of_capacity(Some(capacity)))
}

/// Shows a capacity in its colour.
pub fn color_capacity(capacity: Option<u8>) -> (r: String)
    ensures
        r@ == colored(capacity_text(capacity), capacity_code(capacity)),
{
    color(format_capacity(capacity).as_str(), code_of_capacity(capacity))
}

/// Shows a compact bar and the capacity behind it.
pub fn capacity_meter(capacity: Option<u8>) -> (r: String)
    ensures
        r@ == meter_text(capacity),
{
    match capacity {
        Some(value) => {
            let mut out = color_capacity_bar(value, true);
            out.append(" ");
            out.append(color_capacity(capacity).as_str());
            out
        },
        None => color_capacity(None),
    }
}

/// Writes a wide bar and the capacity behind it.
pub fn plain_capacity_meter(capacity: Option<u8>) -> (r: String)
    ensures
        r@ == plain_meter_text(capacity),
{
    match capacity {
        Some(value) => {
            let mut out = capacity_bar(value, false);
            out.append(" ");
            out.append(format_capacity(capacity).as_str());
            out
        },
        None => format_capacity(None),
    }
}

// ---------------------------------------------------------------------------
// Laws
// ---------------------------------------------------------------------------

/// A capacity bar always has its full width, and a fuller battery never shows fewer filled
/// cells.
pub proof fn bar_has_its_width(capacity: u8, fuller: u8, compact: bool)
    requires
        capacity <= fuller,
    ensures
        bar_text(capacity, compact).len() == bar_width(compact),
        bar_filled(capacity, compact) <= bar_filled(fuller, compact) <= bar_width(compact),
        bar_filled(0, compact) == 0,
        bar_filled(100, compact) == bar_width(compact),
{
    // The width is one of two numbers.
    if compact {
    } else {
    }
}

/// The parts of a duration add up to the duration, and minutes and seconds stay below sixty.
pub proof fn duration_parts_add_up(total: u64)
    ensures
        total == total / 3600 * 3600 + total % 3600 / 60 * 60 + total % 60,
        total % 3600 / 60 < 60,
        total % 60 < 60,
{
    let within_the_hour = total % 3600;
    assert(total == 3600 * (total / 3600) + within_the_hour);
    assert(within_the_hour == 60 * (within_the_hour / 60) + within_the_hour % 60);
    vstd::arithmetic::div_mod::lemma_mod_mod(total as int, 60, 60);
    assert(within_the_hour % 60 == total % 60);
}

proof fn lemma_two_digits(n: nat)
    ensures
        crate::text::digits_value(two_digits(n)) == n,
        !two_digits(n).contains(':'),
{
    crate::text::lemma_decimal_value(n);
    crate::text::lemma_decimal_digits(n);
    if n < 10 {
        reveal_strlit("0");
        let s = two_digits(n);
        assert(s.drop_last() =~= seq!['0']);
        assert(s.drop_last().drop_last() =~= Seq::<char>::empty());
        reveal_with_fuel(crate::text::digits_value, 3);
        assert(s.last() == crate::text::digit_char(n));
    }
}

/// Different durations are written differently.
pub proof fn duration_text_is_injective(a: u64, b: u64)
    requires
        duration_text(a) == duration_text(b),
    ensures
        a == b,
{
    lemma_duration_parts(a);
    lemma_duration_parts(b);
}

/// The parts of a duration can be read off its text.
proof fn lemma_duration_parts(total: u64)
    ensures
        ({
            let first = crate::text::split_once(duration_text(total), ':');
            let second = crate::text::split_once((first->0).1, ':');
            &&& first is Some
            &&& second is Some
            &&& total == crate::text::digits_value((first->0).0) * 3600 + crate::text::digits_value((second->0).0) * 60 + crate::text::digits_value((second->0).1)
        }),
{
    let hours = two_digits((total / 3600) as nat);
    let minutes = two_digits((total % 3600 / 60) as nat);
    let seconds = two_digits((total % 60) as nat);
    reveal_strlit(":");
    lemma_two_digits((total / 3600) as nat);
    lemma_two_digits((total % 3600 / 60) as nat);
    lemma_two_digits((total % 60) as nat);
    let rest = minutes.push(':') + seconds;
    assert(duration_text(total) =~= hours.push(':') + rest);
    crate::text::lemma_split_once_joined(hours, ':', rest);
    crate::text::lemma_split_once_joined(minutes, ':', seconds);
    duration_parts_add_up(total);
}

/// A duration is written as hours, minutes and seconds with colons between them. Minutes and
/// seconds have two digits and hours at least two, and the digits of each part are its number.
pub proof fn duration_text_shows_its_parts(total: u64)
    ensures
        ({
            let text = duration_text(total);
            let end = text.len() as int;
            &&& end >= 8
            &&& total < 360_000 ==> end == 8
            &&& text[end - 3] == ':'
            &&& text[end - 6] == ':'
            &&& crate::text::digits_value(text.subrange(end - 2, end)) == total % 60
            &&& crate::text::digits_value(text.subrange(end - 5, end - 3)) == total / 60 % 60
            &&& crate::text::digits_value(text.take(end - 6)) == total / 3600
        }),
{
    let hours = two_digits((total / 3600) as nat);
    let minutes = two_digits((total % 3600 / 60) as nat);
    let seconds = two_digits((total % 60) as nat);
    reveal_strlit(":");
    lemma_two_digits((total / 3600) as nat);
    lemma_two_digits((total % 3600 / 60) as nat);
    lemma_two_digits((total % 60) as nat);
    lemma_two_digits_length((total / 3600) as nat);
    lemma_two_digits_length((total % 3600 / 60) as nat);
    lemma_two_digits_length((total % 60) as nat);
    duration_parts_add_up(total);
    let text = duration_text(total);
    let end = text.len() as int;
    assert(text.subrange(end - 2, end) =~= seconds);
    assert(text.subrange(end - 5, end - 3) =~= minutes);
    assert(text.take(end - 6) =~= hours);
    assert(total / 60 % 60 == total % 3600 / 60) by (nonlinear_arith)
        requires
            total == total / 3600 * 3600 + total % 3600 / 60 * 60 + total % 60,
            total % 3600 / 60 < 60,
            total % 60 < 60,
    {
        let m = total % 3600 / 60;
        assert(total / 60 == total / 3600 * 60 + m);
    }
}

proof fn lemma_two_digits_length(n: nat)
    ensures
        two_digits(n).len() >= 2,
        n < 100 ==> two_digits(n).len() == 2,
{
    reveal_strlit("0");
    reveal_with_fuel(crate::text::decimal, 3);
    if n >= 10 {
        crate::text::lemma_decimal_digits(n / 10);
    }
}

/// The filled cells of a bar stand first, and their number is the one nearest to the share of the
/// capacity, of which more than a hundred percent counts as a hundred. A compact bar has ten
/// cells and a wide one eighteen.
pub proof fn bar_shows_the_nearest_share(capacity: u8, compact: bool, filled: int, i: int)
    requires
        0 <= i < bar_text(capacity, compact).len(),
    ensures
        bar_text(capacity, compact).len() == (if compact {
            10int
        } else {
            18
        }),
        ({
            let width: int = if compact { 10 } else { 18 };
            let share = vstd::math::min(capacity as int, 100) * width;
            &&& -50 <= share - 100 * filled < 50 ==> bar_text(capacity, compact)[i] == (if i
                < filled {
                '▰'
            } else {
                '▱'
            })
        }),
{
    if compact {
        bar_has_its_width(capacity, capacity, true);
    } else {
        bar_has_its_width(capacity, capacity, false);
    }
}

/// From seventy percent on a capacity is green, from thirty percent on it is yellow, and below it
/// is red. The bar and the number behind it have the same colour, and what is not known is grey.
pub proof fn meters_are_colored_by_capacity(capacity: u8)
    ensures
        ({
            let code = if capacity >= 70 {
                "32"@
            } else if capacity >= 30 {
                "33"@
            } else {
                "31"@
            };
            let number = crate::text::decimal(capacity as nat) + "%"@;
            &&& capacity_code(Some(capacity)) == code
            &&& capacity_text(Some(capacity)) == number
            &&& meter_text(Some(capacity)) == colored(bar_text(capacity, true), code) + " "@
                + colored(number, code)
            &&& plain_meter_text(Some(capacity)) == bar_text(capacity, false) + " "@ + number
        }),
        capacity_code(None) == "90"@,
        capacity_text(None) == "unknown"@,
        meter_text(None) == colored("unknown"@, "90"@),
        plain_meter_text(None) == "unknown"@,
{
}

/// A power state is yellow on battery and green otherwise, with a dot before its label.
pub proof fn badges_are_colored_by_power_state(label: Seq<char>)
    ensures
        badge(label, true) == colored("● "@ + label, "33"@),
        badge(label, false) == colored("● "@ + label, "32"@),
{
}

} // verus!
