//! A plan as it is shown: a headline, and under it a table with one row per
//! step. The grid itself is drawn by the `tabled` crate.

use vstd::prelude::*;
use vstd::string::*;
use crate::blueprint::{Blueprint, StepText};
use crate::numeral::{decimal_digits, to_decimal};

verus! {

/// The text that `tabled` draws for the given records in its `modern` style.
/// A record is one row of cells; the first record is the header.
pub uninterp spec fn modern_table(records: Seq<Seq<Seq<char>>>) -> Seq<char>;

/// Draws the records as a table in the `modern` style of `tabled`.
///
/// The body builds the table with `tabled::Table::from_iter`, applies
/// `tabled::settings::Style::modern()` with `Table::with`, and takes the text
/// from the table's `Display`. The contract claims only that the text depends
/// on the cells alone: it is what `modern_table` names. Nothing is said of
/// the shape of the grid.
#[verifier::external_body]
fn draw_modern_table(records: &Vec<Vec<String>>) -> (text: String)
    ensures
        text@ == modern_table(records.deep_view()),
{
    let mut table = tabled::Table::from_iter(records.clone());
    table.with(tabled::settings::Style::modern());
    table.to_string()
}

/// The header of the table.
pub open spec fn header_record() -> Seq<Seq<char>> {
    seq!["step"@, "description"@, "commands"@]
}

/// The row of one step: its number in decimal, its description, its commands.
pub open spec fn step_record(step: StepText) -> Seq<Seq<char>> {
    seq![decimal_digits(step.step), step.description, step.commands]
}

/// The records of a plan's table: the header, then one row per step, in order.
pub open spec fn table_records(steps: Seq<StepText>) -> Seq<Seq<Seq<char>>> {
    Seq::new(
        steps.len() + 1,
        |i: int|
            if i == 0 {
                header_record()
            } else {
                step_record(steps[i - 1])
            },
    )
}

/// The line that introduces a plan: the format's tag, and the region's
/// offset and length in decimal.
pub open spec fn headline_text(tag: Seq<char>, offset: nat, length: nat) -> Seq<char> {
    "Kernel Modification Blueprint (Type: "@ + tag + ", Offset: "@ + decimal_digits(offset)
        + ", Size: "@ + decimal_digits(length) + " bytes)"@
}

/// The headline with the drawn table under it.
pub open spec fn announcement_text(
    tag: Seq<char>,
    offset: nat,
    length: nat,
    table: Seq<char>,
) -> Seq<char> {
    headline_text(tag, offset, length) + "\n"@ + table
}

/// Collects the cells of a plan's table.
pub fn records_of(blueprint: &Blueprint) -> (records: Vec<Vec<String>>)
    ensures
        records.deep_view() == table_records(blueprint@),
{
    let mut records: Vec<Vec<String>> = Vec::new();
    let mut header: Vec<String> = Vec::new();
    header.push(String::from_str("step"));
    header.push(String::from_str("description"));
    header.push(String::from_str("commands"));
    assert(header.deep_view() =~= header_record());
    records.push(header);
    let mut i: usize = 0;
    while i < blueprint.steps.len()
        invariant
            i <= blueprint.steps.len(),
            records.len() == i + 1,
            forall|k: int| 0 <= k <= i ==> (#[trigger] records[k]).deep_view() == table_records(blueprint@)[k],
        decreases blueprint.steps.len() - i,
    {
        let step = &blueprint.steps[i];
        let mut row: Vec<String> = Vec::new();
        row.push(to_decimal(step.step));
        row.push(String::from_str(step.description));
        row.push(step.commands.clone());
        assert(row.deep_view() =~= step_record(blueprint@[i as int]));
        records.push(row);
        i += 1;
    }
    assert(records.deep_view() =~= table_records(blueprint@));
    records
}

/// Draws the table of a plan, with the columns `step`, `description` and
/// `commands`.
pub fn render_table(blueprint: &Blueprint) -> (text: String)
    ensures
        text@ == modern_table(table_records(blueprint@)),
{
    let records: Vec<Vec<String>> = records_of(blueprint);
    draw_modern_table(&records)
}

/// Writes the headline of a plan.
pub fn headline(tag: &str, offset: usize, length: usize) -> (text: String)
    ensures
        text@ == headline_text(tag@, offset as nat, length as nat),
{
    let at: String = to_decimal(offset);
    let size: String = to_decimal(length);
    let mut text: String = String::from_str("Kernel Modification Blueprint (Type: ");
    text.append(tag);
    text.append(", Offset: ");
    text.append(at.as_str());
    text.append(", Size: ");
    text.append(size.as_str());
    text.append(" bytes)");
    text
}

/// Puts a drawn table under the headline of its plan.
pub fn announcement(tag: &str, offset: usize, length: usize, table: &str) -> (text: String)
    ensures
        text@ == announcement_text(tag@, offset as nat, length as nat, table@),
{
    let mut text: String = headline(tag, offset, length);
    text.append("\n");
    text.append(table);
    text
}

} // verus!
