//! Rows of text laid out as a table.

use vstd::prelude::*;

verus! {

/// What `strings` hold.
pub open spec fn strings_view(strings: Seq<String>) -> Seq<Seq<char>> {
    Seq::new(strings.len(), |i: int| strings[i]@)
}

/// What `rows` hold.
pub open spec fn rows_view(rows: Seq<Vec<String>>) -> Seq<Seq<Seq<char>>> {
    Seq::new(rows.len(), |i: int| strings_view(rows[i]@))
}

/// The text of the table with the given header and rows, laid out without
/// any borders: every column as wide as its widest cell, the cells of a
/// row side by side, one row below the other.
pub uninterp spec fn table_text(header: Seq<Seq<char>>, rows: Seq<Seq<Seq<char>>>) -> Seq<char>;

/// Builds a `comfy_table::Table` with the preset `NOTHING`, sets the
/// header, adds the rows, and gives the text of its `Display`. The table
/// keeps its default arrangement, has no constraints and no styles, and
/// the crate is built without its terminal support, so the text is made
/// from the header and the rows alone.
#[verifier::external_body]
pub(crate) fn render_table(header: &Vec<String>, rows: &Vec<Vec<String>>) -> (text: String)
    ensures
        text@ == table_text(strings_view(header@), rows_view(rows@)),
{
    let mut table = comfy_table::Table::new();
    table.load_preset(comfy_table::presets::NOTHING);
    table.set_header(header);
    table.add_rows(rows);
    table.to_string()
}

} // verus!
