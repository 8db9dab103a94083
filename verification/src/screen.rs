//! What is sent to the terminal.
//!
//! Everything is appended to a buffer that the caller then writes out in one piece.

use crate::cards;
use crate::drain::DrainFigures;
use crate::json::{format_snapshot_json, format_state_json, snapshot_json, state_json};
use crate::sections;
use crate::state::{BatteryState, StateView};
use crate::style::{
    badge, bar_text, bold, capacity_code, capacity_text, colored, duration_text, meter_text, muted,
    plain_meter_text,
};
use crate::supply::{power_state_label, PowerSnapshot, SnapshotView};
use crate::text::{push_decimal, strings_view};
use vstd::prelude::*;

verus! {

/// How reports are laid out.
#[derive(Debug, Clone, Copy, PartialEq, Eq, Structural)]
pub enum Layout {
    /// A title, plain rows and a chart.
    Sections,
    /// A box around the rows.
    Cards,
}

// ---------------------------------------------------------------------------
// Lines and blocks
// ---------------------------------------------------------------------------

/// The escape sequences that go to the first column and clear the line.
pub open spec fn clear_line() -> Seq<char> {
    "\x1b[1G\x1b[2K"@
}

/// A status line: the last one ends with a line feed, any other replaces the one before it.
pub open spec fn status_line(line: Seq<char>, final_line: bool) -> Seq<char> {
    if final_line {
        line + "\n"@
    } else {
        clear_line() + line
    }
}

/// One line of a block, as it is shown.
pub open spec fn block_line(line: Seq<char>, final_block: bool) -> Seq<char> {
    if final_block {
        line
    } else {
        clear_line() + line
    }
}

/// The first `count` lines of a block. A line feed stands between the lines, and behind the
/// last one too where the block is the last one.
pub open spec fn block_body(lines: Seq<Seq<char>>, count: nat, final_block: bool) -> Seq<char>
    decreases count,
{
    if count == 0 {
        Seq::empty()
    } else {
        let earlier = block_body(lines, (count - 1) as nat, final_block) + block_line(
            lines[count - 1],
            final_block,
        );
        if count < lines.len() || final_block {
            earlier + "\n"@
        } else {
            earlier
        }
    }
}

/// The escape sequence that goes up to the first line of a block.
pub open spec fn to_the_top(lines: nat) -> Seq<char> {
    if lines > 1 {
        "\x1b["@ + crate::text::decimal((lines - 1) as nat) + "A"@
    } else {
        Seq::empty()
    }
}

/// A block of lines, drawn over the block before it where there is one.
pub open spec fn status_block(lines: Seq<Seq<char>>, redraw_previous: bool, final_block: bool) -> Seq<
    char,
> {
    (if redraw_previous {
        to_the_top(lines.len())
    } else {
        Seq::empty()
    }) + block_body(lines, lines.len(), final_block)
}

/// Appends a status line.
pub fn write_status_line(out: &mut String, line: &str, final_line: bool)
    ensures
        final(out)@ == old(out)@ + status_line(line@, final_line),
{
    if final_line {
        out.append(line);
        out.append("\n");
    } else {
        out.append("\x1b[1G\x1b[2K");
        out.append(line);
    }
    assert(out@ =~= old(out)@ + status_line(line@, final_line));
}

/// Appends a block of lines.
pub fn write_status_block(
    out: &mut String,
    lines: &Vec<String>,
    redraw_previous: bool,
    final_block: bool,
)
    ensures
        final(out)@ == old(out)@ + status_block(strings_view(lines@), redraw_previous, final_block),
{
    let ghost texts = strings_view(lines@);
    let ghost head = if redraw_previous {
        to_the_top(texts.len())
    } else {
        Seq::<char>::empty()
    };
    if redraw_previous && lines.len() > 1 {
        out.append("\x1b[");
        push_decimal(out, (lines.len() - 1) as u64);
        out.append("A");
    }
    assert(out@ =~= old(out)@ + head);
    let ghost start = out@;
    let mut i: usize = 0;
    assert(start + block_body(texts, 0, final_block) =~= start);
    while i < lines.len()
        invariant
            i <= lines@.len(),
            texts == strings_view(lines@),
            out@ == start + block_body(texts, i as nat, final_block),
        decreases lines@.len() - i,
    {
        let ghost before = out@;
        if !final_block {
            out.append("\x1b[1G\x1b[2K");
        }
        out.append(lines[i].as_str());
        assert(out@ =~= before + block_line(texts[i as int], final_block));
        if i + 1 < lines.len() || final_block {
            out.append("\n");
        }
        i += 1;
        assert(out@ =~= start + block_body(texts, i as nat, final_block));
    }
    assert(out@ =~= old(out)@ + status_block(texts, redraw_previous, final_block));
}

// ---------------------------------------------------------------------------
// Snapshots and states
// ---------------------------------------------------------------------------

/// The lines of a snapshot in a layout.
pub open spec fn snapshot_lines(layout: Layout, snapshot: SnapshotView, counted_seconds: u64) -> Seq<
    Seq<char>,
> {
    match layout {
        Layout::Sections => sections::snapshot_report(snapshot, counted_seconds),
        Layout::Cards => cards::snapshot_card(snapshot, counted_seconds),
    }
}

/// What shows a snapshot.
pub open spec fn snapshot_output(
    layout: Layout,
    snapshot: SnapshotView,
    counted_seconds: u64,
    json: bool,
    final_line: bool,
    redraw_previous: bool,
) -> Seq<char> {
    if json {
        (if final_line && redraw_previous {
            clear_line()
        } else {
            Seq::empty()
        }) + status_line(snapshot_json(snapshot, counted_seconds, final_line), final_line)
    } else {
        status_block(
            snapshot_lines(layout, snapshot, counted_seconds),
            redraw_previous,
            final_line,
        )
    }
}

/// The lines of a state in a layout.
pub open spec fn state_lines(
    layout: Layout,
    state: StateView,
    figures: DrainFigures,
    updated_at: Seq<char>,
) -> Seq<Seq<char>> {
    match layout {
        Layout::Sections => sections::state_report(state, figures, updated_at),
        Layout::Cards => cards::state_card(state, figures.active),
    }
}

/// The JSON object of a state in a layout.
pub open spec fn state_object(layout: Layout, state: StateView, figures: DrainFigures) -> Seq<char> {
    match layout {
        Layout::Sections => state_json(state, figures),
        Layout::Cards => cards::short_state_json(state, figures.active),
    }
}

/// What shows a state.
pub open spec fn state_output(
    layout: Layout,
    state: StateView,
    figures: DrainFigures,
    updated_at: Seq<char>,
    json: bool,
    redraw_previous: bool,
    final_line: bool,
) -> Seq<char> {
    if json {
        status_line(state_object(layout, state, figures), final_line)
    } else {
        status_block(state_lines(layout, state, figures, updated_at), redraw_previous, final_line)
    }
}

/// Whether a state can be shown: what is charted must fit.
pub open spec fn can_be_shown(layout: Layout, state: StateView, json: bool) -> bool {
    json || layout is Cards || sections::is_chartable(state.history)
}

/// Whether a state can be shown.
pub fn can_show(layout: Layout, state: &BatteryState, json: bool) -> (r: bool)
    ensures
        r == can_be_shown(layout, state@, json),
{
    json || matches!(layout, Layout::Cards) || sections::can_chart(&state.history)
}

/// Appends what shows a snapshot.
pub fn print_snapshot_to(
    out: &mut String,
    layout: Layout,
    snapshot: &PowerSnapshot,
    counted_seconds: u64,
    json: bool,
    final_line: bool,
    redraw_previous: bool,
)
    ensures
        final(out)@ == old(out)@ + snapshot_output(
            layout,
            snapshot@,
            counted_seconds,
            json,
            final_line,
            redraw_previous,
        ),
{
    if json {
        if final_line && redraw_previous {
            out.append("\x1b[1G\x1b[2K");
        }
        let line = format_snapshot_json(snapshot, counted_seconds, final_line);
        write_status_line(out, line.as_str(), final_line);
    } else {
        let lines = match layout {
            Layout::Sections => sections::format_snapshot_lines(snapshot, counted_seconds),
            Layout::Cards => cards::format_snapshot_lines(snapshot, counted_seconds),
        };
        write_status_block(out, &lines, redraw_previous, final_line);
    }
    assert(out@ =~= old(out)@ + snapshot_output(
        layout,
        snapshot@,
        counted_seconds,
        json,
        final_line,
        redraw_previous,
    ));
}

/// Writes the JSON object of a state in a layout.
fn format_object(layout: Layout, state: &BatteryState, figures: &DrainFigures) -> (r: String)
    ensures
        r@ == state_object(layout, state@, *figures),
{
    match layout {
        Layout::Sections => format_state_json(state, figures),
        Layout::Cards => cards::format_state_json(state, &figures.active),
    }
}

/// Writes the lines of a state in a layout.
fn format_lines(layout: Layout, state: &BatteryState, figures: &DrainFigures, updated_at: &str) -> (lines: Vec<
    String,
>)
    requires
        can_be_shown(layout, state@, false),
    ensures
        strings_view(lines@) == state_lines(layout, state@, *figures, updated_at@),
{
    match layout {
        Layout::Sections => sections::format_state_lines(state, figures, updated_at),
        Layout::Cards => cards::format_state_lines(state, &figures.active),
    }
}

/// Appends what shows a state once.
pub fn print_state_to(
    out: &mut String,
    layout: Layout,
    state: &BatteryState,
    figures: &DrainFigures,
    updated_at: &str,
    json: bool,
    final_line: bool,
)
    requires
        can_be_shown(layout, state@, json),
    ensures
        final(out)@ == old(out)@ + state_output(
            layout,
            state@,
            *figures,
            updated_at@,
            json,
            false,
            final_line,
        ),
{
    if json {
        write_status_line(out, format_object(layout, state, figures).as_str(), final_line);
    } else {
        let lines = format_lines(layout, state, figures, updated_at);
        write_status_block(out, &lines, false, final_line);
    }
}

/// Appends what shows a state that is refreshed in place.
pub fn print_live_state_to(
    out: &mut String,
    layout: Layout,
    state: &BatteryState,
    figures: &DrainFigures,
    updated_at: &str,
    json: bool,
    redraw_previous: bool,
)
    requires
        can_be_shown(layout, state@, json),
    ensures
        final(out)@ == old(out)@ + state_output(
            layout,
            state@,
            *figures,
            updated_at@,
            json,
            redraw_previous,
            false,
        ),
{
    if json {
        write_status_line(out, format_object(layout, state, figures).as_str(), false);
    } else {
        let lines = format_lines(layout, state, figures, updated_at);
        write_status_block(out, &lines, redraw_previous, false);
    }
}

// ---------------------------------------------------------------------------
// Failures
// ---------------------------------------------------------------------------

/// What is said when the state file cannot be read: how to get one where it is missing, and
/// the cause otherwise.
pub open spec fn read_failure(missing: bool, state_file: Seq<char>, cause: Seq<char>) -> Seq<char> {
    if missing {
        "state file not found at "@ + state_file
            + "; start the systemd service or run `battery-up daemon`"@
    } else {
        cause
    }
}

/// Says why the state file cannot be read.
pub fn describe_read_failure(missing: bool, state_file: &str, cause: &str) -> (r: String)
    ensures
        r@ == read_failure(missing, state_file@, cause@),
{
    if missing {
        let mut out = "state file not found at ".to_string();
        out.append(state_file);
        out.append("; start the systemd service or run `battery-up daemon`");
        out
    } else {
        cause.to_string()
    }
}

// ---------------------------------------------------------------------------
// Laws
// ---------------------------------------------------------------------------

/// How many line feeds a text holds.
pub open spec fn line_feeds(text: Seq<char>) -> nat
    decreases text.len(),
{
    if text.len() == 0 {
        0
    } else {
        line_feeds(text.drop_last()) + (if text.last() == '\n' {
            1nat
        } else {
            0
        })
    }
}

proof fn lemma_line_feeds_add(a: Seq<char>, b: Seq<char>)
    ensures
        line_feeds(a + b) == line_feeds(a) + line_feeds(b),
    decreases b.len(),
{
    if b.len() == 0 {
        assert(a + b =~= a);
    } else {
        assert((a + b).drop_last() =~= a + b.drop_last());
        lemma_line_feeds_add(a, b.drop_last());
    }
}

proof fn lemma_no_line_feeds(text: Seq<char>)
    requires
        !text.contains('\n'),
    ensures
        line_feeds(text) == 0,
    decreases text.len(),
{
    if text.len() > 0 {
        assert(text.contains(text.last()));
        assert forall|i: int| 0 <= i < text.drop_last().len() implies text.drop_last()[i] != '\n' by {
            assert(text.contains(text[i]));
        }
        lemma_no_line_feeds(text.drop_last());
    }
}

proof fn lemma_block_line_feeds(lines: Seq<Seq<char>>, count: nat, final_block: bool)
    requires
        count <= lines.len(),
        forall|i: int| 0 <= i < lines.len() ==> !(#[trigger] lines[i]).contains('\n'),
    ensures
        line_feeds(block_body(lines, count, final_block)) == (if final_block || count
            < lines.len() || count == 0 {
            count
        } else {
            (count - 1) as nat
        }),
    decreases count,
{
    if count > 0 {
        let earlier = block_body(lines, (count - 1) as nat, final_block);
        let line = lines[count - 1];
        lemma_block_line_feeds(lines, (count - 1) as nat, final_block);
        reveal_strlit("\x1b[1G\x1b[2K");
        reveal_strlit("\n");
        lemma_no_line_feeds(line);
        lemma_no_line_feeds(clear_line());
        lemma_line_feeds_add(clear_line(), line);
        lemma_line_feeds_add(earlier, block_line(line, final_block));
        lemma_line_feeds_add(earlier + block_line(line, final_block), "\n"@);
        assert("\n"@.drop_last() =~= Seq::<char>::empty());
        reveal_with_fuel(line_feeds, 2);
    }
}

/// A block that is to be redrawn leaves the cursor as many lines below its first line as the
/// redrawing goes up, so blocks with the same number of lines are drawn one over the other.
pub proof fn redrawing_returns_to_the_top(lines: Seq<Seq<char>>)
    requires
        lines.len() > 1,
        forall|i: int| 0 <= i < lines.len() ==> !(#[trigger] lines[i]).contains('\n'),
    ensures
        to_the_top(lines.len()) == "\x1b["@ + crate::text::decimal(
            line_feeds(block_body(lines, lines.len(), false)),
        ) + "A"@,
{
    lemma_block_line_feeds(lines, lines.len(), false);
}

/// The last block ends with a line feed behind every one of its lines.
pub proof fn final_block_ends_every_line(lines: Seq<Seq<char>>)
    requires
        forall|i: int| 0 <= i < lines.len() ==> !(#[trigger] lines[i]).contains('\n'),
    ensures
        line_feeds(block_body(lines, lines.len(), true)) == lines.len(),
{
    lemma_block_line_feeds(lines, lines.len(), true);
}

/// Whether a text stays on one line.
pub open spec fn is_one_line(text: Seq<char>) -> bool {
    forall|i: int| 0 <= i < text.len() ==> text[i] != '\n'
}

proof fn lemma_one_line_add(a: Seq<char>, b: Seq<char>)
    requires
        is_one_line(a),
        is_one_line(b),
    ensures
        is_one_line(a + b),
{
}

proof fn lemma_one_line_decimal(n: nat)
    ensures
        is_one_line(crate::text::decimal(n)),
{
    crate::text::lemma_decimal_digits(n);
    assert forall|i: int| 0 <= i < crate::text::decimal(n).len() implies crate::text::decimal(n)[i]
        != '\n' by {
        assert(crate::text::is_digit(crate::text::decimal(n)[i]));
    }
}

proof fn lemma_one_line_colored(value: Seq<char>, code: Seq<char>)
    requires
        is_one_line(value),
        is_one_line(code),
    ensures
        is_one_line(colored(value, code)),
{
    reveal_strlit("\x1b[");
    reveal_strlit("m");
    reveal_strlit("\x1b[0m");
}

proof fn lemma_one_line_codes()
    ensures
        is_one_line("1"@),
        is_one_line("31"@),
        is_one_line("32"@),
        is_one_line("33"@),
        is_one_line("90"@),
{
    reveal_strlit("1");
    reveal_strlit("31");
    reveal_strlit("32");
    reveal_strlit("33");
    reveal_strlit("90");
}

proof fn lemma_one_line_duration(total: u64)
    ensures
        is_one_line(bold(duration_text(total))),
{
    reveal_strlit("0");
    reveal_strlit(":");
    lemma_one_line_decimal((total / 3600) as nat);
    lemma_one_line_decimal((total % 3600 / 60) as nat);
    lemma_one_line_decimal((total % 60) as nat);
    lemma_one_line_codes();
    lemma_one_line_colored(duration_text(total), "1"@);
}

proof fn lemma_one_line_badge(on_battery_only: bool)
    ensures
        is_one_line(badge(power_state_label(on_battery_only), on_battery_only)),
{
    reveal_strlit("● ");
    reveal_strlit("battery");
    reveal_strlit("external-or-idle");
    lemma_one_line_codes();
    lemma_one_line_colored("● "@ + power_state_label(on_battery_only), "33"@);
    lemma_one_line_colored("● "@ + power_state_label(on_battery_only), "32"@);
}

proof fn lemma_one_line_meter(capacity: Option<u8>)
    ensures
        is_one_line(meter_text(capacity)),
{
    lemma_one_line_codes();
    reveal_strlit(" ");
    reveal_strlit("%");
    reveal_strlit("unknown");
    let code = capacity_code(capacity);
    match capacity {
        Some(value) => {
            lemma_one_line_decimal(value as nat);
            lemma_one_line_colored(bar_text(value, true), code);
        },
        None => {},
    }
    lemma_one_line_colored(capacity_text(capacity), code);
}

proof fn lemma_one_line_label(label: Seq<char>)
    requires
        is_one_line(label),
    ensures
        is_one_line(muted(crate::text::padded(label, sections::LABEL_WIDTH as nat)) + "  "@),
{
    lemma_one_line_codes();
    reveal_strlit("  ");
    lemma_one_line_colored(crate::text::padded(label, sections::LABEL_WIDTH as nat), "90"@);
}

proof fn lemma_one_line_cells(snapshot: SnapshotView, counted_seconds: u64)
    ensures
        is_one_line("Session on battery"@),
        is_one_line("Power state"@),
        is_one_line("Battery"@),
        is_one_line(bold("battery-up"@)),
        is_one_line(bold(duration_text(counted_seconds))),
        is_one_line(badge(power_state_label(snapshot.on_battery_only), snapshot.on_battery_only)),
        is_one_line(meter_text(snapshot.battery_capacity)),
{
    reveal_strlit("Session on battery");
    reveal_strlit("Power state");
    reveal_strlit("Battery");
    reveal_strlit("battery-up");
    lemma_one_line_codes();
    lemma_one_line_colored("battery-up"@, "1"@);
    lemma_one_line_duration(counted_seconds);
    lemma_one_line_badge(snapshot.on_battery_only);
    lemma_one_line_meter(snapshot.battery_capacity);
}

proof fn lemma_one_line_card_row(label: Seq<char>, value: Seq<char>, columns: nat)
    requires
        is_one_line(label),
        is_one_line(value),
    ensures
        is_one_line(sections::row(label, value)),
        is_one_line(cards::side_edges(cards::card_row(label, value, columns))),
{
    reveal_strlit("│ ");
    reveal_strlit(" │");
    lemma_one_line_label(label);
    lemma_one_line_add(
        muted(crate::text::padded(label, sections::LABEL_WIDTH as nat)) + "  "@,
        value,
    );
    lemma_one_line_add(
        sections::row(label, value),
        crate::text::repeated(' ', cards::filling(columns)),
    );
}

/// The block of a session has the same number of lines whatever it shows, in either layout,
/// and none of them breaks, so each is drawn exactly over the one before it.
pub proof fn session_blocks_cover_each_other(
    layout: Layout,
    before: SnapshotView,
    counted_before: u64,
    after: SnapshotView,
    counted_after: u64,
)
    ensures
        ({
            let earlier = snapshot_lines(layout, before, counted_before);
            let later = snapshot_lines(layout, after, counted_after);
            &&& earlier.len() == later.len()
            &&& forall|i: int| 0 <= i < earlier.len() ==> is_one_line(#[trigger] earlier[i])
            &&& to_the_top(later.len()) == "\x1b["@ + crate::text::decimal(
                line_feeds(block_body(earlier, earlier.len(), false)),
            ) + "A"@
        }),
{
    let earlier = snapshot_lines(layout, before, counted_before);
    let label = power_state_label(before.on_battery_only);
    let counted = duration_text(counted_before);
    let plain = plain_meter_text(before.battery_capacity);
    lemma_one_line_cells(before, counted_before);
    lemma_one_line_card_row(
        "Session on battery"@,
        bold(counted),
        cards::display_width(counted) as nat,
    );
    lemma_one_line_card_row(
        "Power state"@,
        badge(label, before.on_battery_only),
        cards::display_width("● "@ + label) as nat,
    );
    lemma_one_line_card_row(
        "Battery"@,
        meter_text(before.battery_capacity),
        cards::display_width(plain) as nat,
    );
    assert(is_one_line(cards::upper_edge("battery-up"@)) && is_one_line(cards::lower_edge())) by {
        reveal_strlit("╭");
        reveal_strlit("╮");
        reveal_strlit("╰");
        reveal_strlit("╯");
        reveal_strlit(" ");
        reveal_strlit("battery-up");
    }
    assert(forall|i: int| 0 <= i < earlier.len() ==> is_one_line(#[trigger] earlier[i]));
    assert forall|i: int| 0 <= i < earlier.len() implies !(#[trigger] earlier[i]).contains('\n') by {
        assert(is_one_line(earlier[i]));
    }
    redrawing_returns_to_the_top(earlier);
}

/// The last block is its lines, each with a line feed behind it, and nothing else.
pub proof fn final_block_is_its_lines(lines: Seq<Seq<char>>)
    ensures
        status_block(lines, false, true) == crate::text::terminated(lines),
{
    lemma_final_body(lines, lines.len());
    assert(lines.take(lines.len() as int) =~= lines);
    assert(status_block(lines, false, true) =~= block_body(lines, lines.len(), true));
}

proof fn lemma_final_body(lines: Seq<Seq<char>>, count: nat)
    requires
        count <= lines.len(),
    ensures
        block_body(lines, count, true) == crate::text::terminated(lines.take(count as int)),
    decreases count,
{
    if count == 0 {
        assert(lines.take(0) =~= Seq::<Seq<char>>::empty());
    } else {
        lemma_final_body(lines, (count - 1) as nat);
        assert(lines.take(count as int).drop_last() =~= lines.take(count - 1));
        reveal_strlit("\n");
        assert(block_body(lines, count, true) =~= crate::text::terminated(
            lines.take(count as int),
        ));
    }
}

/// A block that is to be redrawn is its lines with a line feed between them and none at the end,
/// each of them cleared before it is drawn.
pub proof fn live_block_joins_its_lines(lines: Seq<Seq<char>>)
    ensures
        status_block(lines, false, false) == crate::text::joined(
            Seq::new(lines.len(), |i: int| "\x1b[1G\x1b[2K"@ + lines[i]),
            "\n"@,
        ),
{
    let cleared = Seq::new(lines.len(), |i: int| "\x1b[1G\x1b[2K"@ + lines[i]);
    if lines.len() > 0 {
        lemma_live_body(lines, (lines.len() - 1) as nat);
        assert(cleared.take(lines.len() - 1) =~= cleared.drop_last());
        if lines.len() == 1 {
            assert(block_body(lines, 0, false) =~= Seq::<char>::empty());
            assert(block_body(lines, 1, false) =~= cleared[0]);
        }
    }
    assert(status_block(lines, false, false) =~= block_body(lines, lines.len(), false));
    assert(block_body(lines, lines.len(), false) =~= crate::text::joined(cleared, "\n"@));
}

proof fn lemma_live_body(lines: Seq<Seq<char>>, count: nat)
    requires
        count < lines.len(),
    ensures
        count > 0 ==> block_body(lines, count, false) == crate::text::joined(
            Seq::new(lines.len(), |i: int| "\x1b[1G\x1b[2K"@ + lines[i]).take(count as int),
            "\n"@,
        ) + "\n"@,
    decreases count,
{
    if count > 0 {
        let cleared = Seq::new(lines.len(), |i: int| "\x1b[1G\x1b[2K"@ + lines[i]);
        let part = cleared.take(count as int);
        lemma_live_body(lines, (count - 1) as nat);
        assert(part.drop_last() =~= cleared.take(count - 1));
        if count == 1 {
            assert(block_body(lines, 0, false) =~= Seq::<char>::empty());
            assert(part[0] == cleared[0]);
        }
        assert(block_body(lines, count, false) =~= crate::text::joined(part, "\n"@) + "\n"@);
    }
}

/// Redrawing only goes up first, by one line less than the block has.
pub proof fn redrawing_goes_up_first(lines: Seq<Seq<char>>, final_block: bool)
    ensures
        lines.len() > 1 ==> status_block(lines, true, final_block) == "\x1b["@
            + crate::text::decimal((lines.len() - 1) as nat) + "A"@ + status_block(
            lines,
            false,
            final_block,
        ),
        lines.len() <= 1 ==> status_block(lines, true, final_block) == status_block(
            lines,
            false,
            final_block,
        ),
{
    let body = block_body(lines, lines.len(), final_block);
    assert(status_block(lines, false, final_block) =~= body);
    if lines.len() <= 1 {
        assert(status_block(lines, true, final_block) =~= body);
    }
}

/// What shows a state ends with the state once: as a JSON object on one line, or as the block of
/// its layout. The last one ends with a line feed, and any other clears before it draws.
pub proof fn states_are_shown_in_their_layout(
    state: StateView,
    figures: DrainFigures,
    updated_at: Seq<char>,
    redraw_previous: bool,
    final_line: bool,
)
    ensures
        state_output(Layout::Sections, state, figures, updated_at, true, redraw_previous, true)
            == state_json(state, figures) + "\n"@,
        state_output(Layout::Sections, state, figures, updated_at, true, redraw_previous, false)
            == "\x1b[1G\x1b[2K"@ + state_json(state, figures),
        state_output(Layout::Cards, state, figures, updated_at, true, redraw_previous, true)
            == cards::short_state_json(state, figures.active) + "\n"@,
        state_output(Layout::Cards, state, figures, updated_at, true, redraw_previous, false)
            == "\x1b[1G\x1b[2K"@ + cards::short_state_json(state, figures.active),
        state_output(
            Layout::Sections,
            state,
            figures,
            updated_at,
            false,
            redraw_previous,
            final_line,
        ) == status_block(
            sections::state_report(state, figures, updated_at),
            redraw_previous,
            final_line,
        ),
        state_output(Layout::Cards, state, figures, updated_at, false, redraw_previous, final_line)
            == status_block(cards::state_card(state, figures.active), redraw_previous, final_line),
{
}

/// What shows a session is a JSON object on one line, which the last one puts in the place of the
/// one before it, or the block of its layout.
pub proof fn sessions_are_shown_in_their_layout(
    layout: Layout,
    snapshot: SnapshotView,
    counted_seconds: u64,
    redraw_previous: bool,
    final_line: bool,
)
    ensures
        snapshot_output(layout, snapshot, counted_seconds, true, false, redraw_previous)
            == "\x1b[1G\x1b[2K"@ + snapshot_json(snapshot, counted_seconds, false),
        snapshot_output(layout, snapshot, counted_seconds, true, true, true)
            == "\x1b[1G\x1b[2K"@ + snapshot_json(snapshot, counted_seconds, true) + "\n"@,
        snapshot_output(layout, snapshot, counted_seconds, true, true, false) == snapshot_json(
            snapshot,
            counted_seconds,
            true,
        ) + "\n"@,
        snapshot_output(
            Layout::Sections,
            snapshot,
            counted_seconds,
            false,
            final_line,
            redraw_previous,
        ) == status_block(
            sections::snapshot_report(snapshot, counted_seconds),
            redraw_previous,
            final_line,
        ),
        snapshot_output(
            Layout::Cards,
            snapshot,
            counted_seconds,
            false,
            final_line,
            redraw_previous,
        ) == status_block(
            cards::snapshot_card(snapshot, counted_seconds),
            redraw_previous,
            final_line,
        ),
{
    let clear = "\x1b[1G\x1b[2K"@;
    assert(snapshot_output(layout, snapshot, counted_seconds, true, false, redraw_previous)
        =~= clear + snapshot_json(snapshot, counted_seconds, false));
    assert(snapshot_output(layout, snapshot, counted_seconds, true, true, true) =~= clear
        + snapshot_json(snapshot, counted_seconds, true) + "\n"@);
    assert(snapshot_output(layout, snapshot, counted_seconds, true, true, false)
        =~= snapshot_json(snapshot, counted_seconds, true) + "\n"@);
}

/// A JSON object and a card can be shown of any state.
pub proof fn objects_and_cards_can_always_be_shown(layout: Layout, state: StateView, json: bool)
    ensures
        can_be_shown(layout, state, true),
        can_be_shown(Layout::Cards, state, json),
        can_be_shown(Layout::Sections, state, false) == sections::is_chartable(state.history),
{
}

/// A missing state file is named together with how to get one, whatever the cause was, and any
/// other failure is its cause.
pub proof fn failures_name_the_file_or_the_cause(state_file: Seq<char>, cause: Seq<char>)
    ensures
        read_failure(true, state_file, cause) == "state file not found at "@ + state_file
            + "; start the systemd service or run `battery-up daemon`"@,
        read_failure(false, state_file, cause) == cause,
{
}

} // verus!
