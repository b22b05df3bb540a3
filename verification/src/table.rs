//! Locating tabular data in an HTML document. The extraction itself is
//! delegated to the `table_extract` crate behind a narrow first-table-as-rows
//! capability; the rest of the pipeline works on the plain rows it yields.

use vstd::prelude::*;

verus! {

/// What extracting the first table of an HTML document yields: `None` when
/// the document holds no table element, otherwise the extracted rows in
/// document order, each row the text contents of its `<td>` cells in order.
/// When the table's first row holds `<th>` cells, the extraction files it as
/// headers and it is not among the rows. The result is a function of the
/// document text alone.
pub uninterp spec fn first_table_rows(html: Seq<char>) -> Option<Seq<Seq<Seq<char>>>>;

/// The cell texts of one extracted row.
pub open spec fn row_view(row: Vec<String>) -> Seq<Seq<char>> {
    Seq::new(row@.len(), |i: int| row@[i]@)
}

/// The rows of one extracted table.
pub open spec fn rows_view(rows: Vec<Vec<String>>) -> Seq<Seq<Seq<char>>> {
    Seq::new(rows@.len(), |i: int| row_view(rows@[i]))
}

/// Relies on `table_extract::Table::find_first`: finds the first table
/// element of the document, or `None` when there is none, and on
/// `Table::iter` and `Row::iter`, which yield the table's rows in document
/// order and each row's cell texts (the trimmed inner HTML of each `<td>`
/// cell) in order.
#[verifier::external_body]
pub(crate) fn find_first_table(html: &str) -> (r: Option<Vec<Vec<String>>>)
    ensures
        r is Some <==> first_table_rows(html@) is Some,
        (r matches Some(rows) ==> first_table_rows(html@) == Some(rows_view(rows))),
{
    table_extract::Table::find_first(html).map(
        |t|
            t.iter().map(
                |row| row.iter().map(|c| c.clone()).collect::<Vec<String>>(),
            ).collect::<Vec<Vec<String>>>(),
    )
}

} // verus!
