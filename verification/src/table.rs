//! Tabular rendering. The grid layout itself comes from the prettytable
//! crate; this module names its output and wraps the one call into it.

use vstd::prelude::*;

verus! {

/// What prettytable renders for a grid of cell texts: the rows of a table in
/// prettytable's default format, one cell per string. The exact layout is
/// not restated here; the rendering depends on the cell texts alone.
pub uninterp spec fn table_text(rows: Seq<Seq<Seq<char>>>) -> Seq<char>;

/// Relies on `prettytable::Table` in its default format: a table built from
/// the given rows and rendered with `to_string` is a pure function of the
/// cell texts.
#[verifier::external_body]
pub(crate) fn render_table(rows: &Vec<Vec<String>>) -> (r: String)
    ensures
        r@ == table_text(rows.deep_view()),
{
    let mut t = prettytable::Table::new();
    for row in rows.iter() {
        t.add_row(prettytable::Row::new(row.iter().map(|c| prettytable::Cell::new(c)).collect()));
    }
    t.to_string()
}

} // verus!
