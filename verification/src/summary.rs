//! The summary text of the current selection: a table of the solution
//! tables of one solution set, or a description of one solution table.

use crate::archive::{SolTab, SolTabView};
use crate::stations::{count_of, count_stations, StationClass};
use crate::text::{
    decimal, digit, digit_text, push_joined, decimal_text, join, joined, left_justified, push_decimal, push_left_justified,
    push_right_justified, right_justified,
};
use vstd::prelude::*;
use vstd::string::*;

verus! {

/// The column titles of the solution-set summary, each in its field.
pub open spec fn header_line() -> Seq<char> {
    left_justified("Solutions"@, 21) + " "@ + left_justified("Type"@, 16) + " "@ + left_justified(
        "Polarisations"@,
        13,
    ) + " "@ + left_justified("Antennas"@, 13)
}

/// The antenna field of a row: the number of antennas, then in parentheses
/// the numbers of core, remote and international stations, the first of
/// them right-justified in two characters.
pub open spec fn antenna_field(names: Seq<Seq<char>>) -> Seq<char> {
    decimal(names.len()) + " ("@ + right_justified(
        decimal(count_of(names, StationClass::Core)),
        2,
    ) + "/"@ + decimal(count_of(names, StationClass::Remote)) + "/"@ + decimal(
        count_of(names, StationClass::International),
    ) + ")"@
}

/// The row of one solution table: name, kind, polarisations joined by
/// commas, and the antenna field.
pub open spec fn table_line(table: SolTabView) -> Seq<char> {
    left_justified(table.name, 21) + " "@ + left_justified(table.kind, 16) + " "@
        + left_justified(joined(table.polarisations, ","@), 13) + " "@ + antenna_field(
        table.antennas,
    )
}

/// The rows of the tables in order, each ended by a line feed.
pub open spec fn table_lines(tables: Seq<SolTabView>) -> Seq<char>
    decreases tables.len(),
{
    if tables.len() == 0 {
        Seq::empty()
    } else {
        table_lines(tables.drop_last()) + table_line(tables.last()) + "\n"@
    }
}

/// The summary of a solution set: the header line, then one row for each of
/// its solution tables.
pub open spec fn solset_summary(tables: Seq<SolTabView>) -> Seq<char> {
    header_line() + "\n"@ + table_lines(tables)
}

/// Appends the header line to `buf`.
fn push_header(buf: &mut String)
    ensures
        final(buf)@ == old(buf)@ + header_line(),
{
    push_left_justified(buf, "Solutions", 21);
    buf.append(" ");
    push_left_justified(buf, "Type", 16);
    buf.append(" ");
    push_left_justified(buf, "Polarisations", 13);
    buf.append(" ");
    push_left_justified(buf, "Antennas", 13);
}

/// Appends the antenna field of a row to `buf`.
fn push_antenna_field(buf: &mut String, names: &Vec<String>)
    ensures
        final(buf)@ == old(buf)@ + antenna_field(names.deep_view()),
{
    let counts = count_stations(names);
    push_decimal(buf, names.len());
    buf.append(" (");
    let core = decimal_text(counts.core);
    push_right_justified(buf, core.as_str(), 2);
    buf.append("/");
    push_decimal(buf, counts.remote);
    buf.append("/");
    push_decimal(buf, counts.international);
    buf.append(")");
}

/// Appends the row of `table` to `buf`.
fn push_table_line(buf: &mut String, table: &SolTab)
    ensures
        final(buf)@ == old(buf)@ + table_line(table@),
{
    push_left_justified(buf, table.name.as_str(), 21);
    buf.append(" ");
    push_left_justified(buf, table.kind.as_str(), 16);
    buf.append(" ");
    let polarisations = join(&table.polarisations, ",");
    push_left_justified(buf, polarisations.as_str(), 13);
    buf.append(" ");
    push_antenna_field(buf, &table.antennas);
}

/// Renders the summary of a solution set from its solution tables.
pub fn solset_summary_text(tables: &Vec<SolTab>) -> (text: String)
    ensures
        text@ == solset_summary(tables.deep_view()),
{
    let ghost all = tables.deep_view();
    let mut text = String::new();
    push_header(&mut text);
    text.append("\n");
    let mut k: usize = 0;
    while k < tables.len()
        invariant
            k <= tables.len(),
            all == tables.deep_view(),
            text@ == header_line() + "\n"@ + table_lines(all.take(k as int)),
        decreases tables.len() - k,
    {
        proof {
            let after = all.take(k + 1);
            assert(after.drop_last() == all.take(k as int));
        }
        push_table_line(&mut text, &tables[k]);
        text.append("\n");
        k += 1;
    }
    assert(all.take(k as int) == all);
    text
}

/// The first direction of a table; `None` where the table names no
/// direction at all, which a sound archive never does.
pub open spec fn first_direction(table: SolTabView) -> Option<Seq<char>> {
    match table.directions {
        Some(names) => if names.len() >= 1 {
            Some(names[0])
        } else {
            None
        },
        None => None,
    }
}

/// What the summary shows in place of a direction where the table names
/// none. The text is kept as it is so that a search finds it.
pub const MISSING_DIRECTION: &'static str = "AAAAAAAAH BUG";

/// The characters of [`MISSING_DIRECTION`].
pub open spec fn missing_direction() -> Seq<char> {
    MISSING_DIRECTION@
}

/// A share given in hundredths of a percent, written as a percentage with
/// two decimals.
pub open spec fn percentage(hundredths: nat) -> Seq<char> {
    decimal(hundredths / 100) + "."@ + seq![digit(hundredths % 100 / 10), digit(hundredths % 10)]
}

/// The line that names the axes of the table.
pub open spec fn dimensions_line(table: SolTabView) -> Seq<char> {
    "Dimensions: "@ + joined(table.axes, ", "@)
}

/// The line that names the table's first direction, or the marker of a
/// missing one.
pub open spec fn directions_line(table: SolTabView) -> Seq<char> {
    "Directions: "@ + match first_direction(table) {
        Some(name) => name,
        None => missing_direction(),
    }
}

/// The line that gives the flagged share of the table.
pub open spec fn flagged_line(table: SolTabView) -> Seq<char> {
    "Overall flagged fraction: "@ + percentage(table.flagged) + "%"@
}

/// The line that gives the spacing of the time axis.
pub open spec fn time_line(table: SolTabView) -> Seq<char> {
    "Time interval: "@ + table.times.step + " s"@
}

/// Whether the table has a frequency axis of more than one sample.
pub open spec fn has_frequency_step(table: SolTabView) -> bool {
    table.frequencies is Some && table.frequencies->0.samples > 1
}

/// The line that gives the spacing of the frequency axis, where the table
/// has such an axis with more than one sample.
pub open spec fn frequency_line(table: SolTabView) -> Seq<char> {
    if has_frequency_step(table) {
        "Frequency interval: "@ + table.frequencies->0.step + " Hz"@
    } else {
        "Frequency interval: N/A"@
    }
}

/// The heading of the station list and, on the next line, the antenna
/// names joined by a comma and a blank.
pub open spec fn stations_block(table: SolTabView) -> Seq<char> {
    "Stations present:\n"@ + joined(table.antennas, ", "@)
}

/// The summary of a solution table: six sections in a fixed order, with one
/// empty line between neighbours.
pub open spec fn soltab_summary(table: SolTabView) -> Seq<char> {
    dimensions_line(table) + "\n\n"@ + directions_line(table) + "\n\n"@ + flagged_line(table)
        + "\n\n"@ + time_line(table) + "\n\n"@ + frequency_line(table) + "\n\n"@ + stations_block(
        table,
    )
}

/// The first direction of `table`, or `None` where it names none.
pub fn first_direction_of(table: &SolTab) -> (found: Option<&String>)
    ensures
        found.deep_view() == first_direction(table@),
{
    match &table.directions {
        Some(names) => {
            if names.len() >= 1 {
                Some(&names[0])
            } else {
                None
            }
        },
        None => None,
    }
}

/// Appends a share in hundredths of a percent to `buf`, as a percentage
/// with two decimals.
pub fn push_percentage(buf: &mut String, hundredths: u32)
    ensures
        final(buf)@ == old(buf)@ + percentage(hundredths as nat),
{
    push_decimal(buf, (hundredths / 100) as usize);
    buf.append(".");
    buf.append(digit_text((hundredths % 100 / 10) as usize));
    buf.append(digit_text((hundredths % 10) as usize));
}

/// Renders the summary of one solution table.
///
/// The time axis must have at least two samples, since the summary shows
/// the spacing between the first two.
pub fn soltab_summary_text(table: &SolTab) -> (text: String)
    requires
        table.times.samples >= 2,
    ensures
        text@ == soltab_summary(table@),
{
    let mut text = String::new();
    text.append("Dimensions: ");
    push_joined(&mut text, &table.axes, ", ");
    text.append("\n\n");

    text.append("Directions: ");
    match first_direction_of(table) {
        Some(name) => {
            text.append(name.as_str());
        },
        None => {
            text.append(MISSING_DIRECTION);
        },
    }
    text.append("\n\n");

    text.append("Overall flagged fraction: ");
    push_percentage(&mut text, table.flagged);
    text.append("%");
    text.append("\n\n");

    text.append("Time interval: ");
    text.append(table.times.step.as_str());
    text.append(" s");
    text.append("\n\n");

    match &table.frequencies {
        Some(axis) => {
            if axis.samples > 1 {
                text.append("Frequency interval: ");
                text.append(axis.step.as_str());
                text.append(" Hz");
            } else {
                text.append("Frequency interval: N/A");
            }
        },
        None => {
            text.append("Frequency interval: N/A");
        },
    }
    text.append("\n\n");

    text.append("Stations present:\n");
    push_joined(&mut text, &table.antennas, ", ");
    text
}

} // verus!
