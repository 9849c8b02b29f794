//! Table assembly on top of the `prettytable` rendering backend.

use vstd::prelude::*;

use crate::record::Tablefy;
use crate::text::views_of;

verus! {

/// The table type of the rendering backend.
#[verifier::external_type_specification]
#[verifier::external_body]
pub struct ExTable(prettytable::Table);

/// The row type of the rendering backend.
#[verifier::external_type_specification]
#[verifier::external_body]
pub struct ExRow(prettytable::Row);

/// The cell type of the rendering backend.
#[verifier::external_type_specification]
#[verifier::external_body]
pub struct ExCell(prettytable::Cell);

/// The lines of a text, as the backend's cell constructor splits them at
/// line breaks.
pub uninterp spec fn lines_of(s: Seq<char>) -> Seq<Seq<char>>;

/// The content of a cell of the rendering backend, line by line.
pub uninterp spec fn cell_lines(c: prettytable::Cell) -> Seq<Seq<char>>;

/// The cells a row of the rendering backend holds, in order.
pub uninterp spec fn row_cells(r: prettytable::Row) -> Seq<Seq<Seq<char>>>;

/// The data rows a table of the rendering backend holds, in order.
pub uninterp spec fn table_rows(t: prettytable::Table) -> Seq<Seq<Seq<Seq<char>>>>;

/// The title row of a table of the rendering backend, where one was set.
pub uninterp spec fn table_titles(t: prettytable::Table) -> Option<Seq<Seq<Seq<char>>>>;

/// The text a table of the rendering backend renders to.
pub uninterp spec fn table_render(t: prettytable::Table) -> Seq<char>;

/// Relies on prettytable's `Cell::new`: the cell's content is the given
/// text, split into lines.
#[verifier::external_body]
fn new_cell(s: &str) -> (c: prettytable::Cell)
    ensures
        cell_lines(c) == lines_of(s@),
{
    prettytable::Cell::new(s)
}

/// Relies on prettytable's `Row::new`: the row holds exactly the given
/// cells, in order.
#[verifier::external_body]
fn new_row(cells: Vec<prettytable::Cell>) -> (r: prettytable::Row)
    ensures
        row_cells(r) == cells@.map_values(|c: prettytable::Cell| cell_lines(c)),
{
    prettytable::Row::new(cells)
}

/// Relies on prettytable's `Table::new`: a new table holds no data rows
/// and no title row.
#[verifier::external_body]
fn new_table() -> (t: prettytable::Table)
    ensures
        table_rows(t) == Seq::<Seq<Seq<Seq<char>>>>::empty(),
        table_titles(t) is None,
{
    prettytable::Table::new()
}

/// Relies on prettytable's `Table::set_titles`: the given row becomes the
/// title row; the data rows stay as they were.
#[verifier::external_body]
fn set_titles(t: &mut prettytable::Table, titles: prettytable::Row)
    ensures
        table_titles(*final(t)) == Some(row_cells(titles)),
        table_rows(*final(t)) == table_rows(*old(t)),
{
    t.set_titles(titles)
}

/// Relies on prettytable's `Table::add_row`: the given row is appended
/// after the table's data rows; the title row stays as it was.
#[verifier::external_body]
fn add_row(t: &mut prettytable::Table, row: prettytable::Row)
    ensures
        table_rows(*final(t)) == table_rows(*old(t)).push(row_cells(row)),
        table_titles(*final(t)) == table_titles(*old(t)),
{
    t.add_row(row);
}

/// Relies on prettytable's `Display` for `Table`: the rendering is a
/// function of the table's contents and format alone.
#[verifier::external_body]
fn render_table(t: &prettytable::Table) -> (s: String)
    ensures
        s@ == table_render(*t),
{
    format!("{}", t)
}

/// Converts a vector of texts into a row of the rendering backend: one
/// cell per text, in order.
fn vec_to_row(data: &Vec<String>) -> (r: prettytable::Row)
    ensures
        row_cells(r) == views_of(data@).map_values(|s: Seq<char>| lines_of(s)),
{
    let mut cells: Vec<prettytable::Cell> = Vec::new();
    let n = data.len();
    let mut idx: usize = 0;
    while idx < n
        invariant
            n == data@.len(),
            idx <= n,
            cells@.len() == idx,
            forall|i: int|
                0 <= i < idx as int ==> cell_lines(#[trigger] cells@[i]) == lines_of(data@[i]@),
        decreases n - idx,
    {
        cells.push(new_cell(data[idx].as_str()));
        idx += 1;
    }
    let r = new_row(cells);
    proof {
        assert(row_cells(r) =~= views_of(data@).map_values(|s: Seq<char>| lines_of(s)));
    }
    r
}

/// Whether a table holds exactly the assembly of the given records: its
/// title row carries the type's headers and its data rows carry one
/// record's row each, in input order, each text split into the lines the
/// backend's cells store.
pub open spec fn assembled<T: Tablefy>(t: prettytable::Table, data: Seq<T>) -> bool {
    &&& table_titles(t) == Some(T::spec_headers().map_values(|s: Seq<char>| lines_of(s)))
    &&& table_rows(t).len() == data.len()
    &&& forall|i: int|
        0 <= i < data.len() ==> table_rows(t)[i] == (#[trigger] data[i]).spec_row().map_values(
            |s: Seq<char>| lines_of(s),
        )
}

/// Function that turns a vector of tabular records into a full table of
/// the rendering backend: the title row is set from the type's headers,
/// then each record's row is appended in input order. An empty input
/// yields a table with the title row alone.
pub fn into_table<T: Tablefy>(data: &Vec<T>) -> (t: prettytable::Table)
    ensures
        assembled(t, data@),
{
    let mut table = new_table();
    let headers = T::get_headers();
    let title_row = vec_to_row(&headers);
    set_titles(&mut table, title_row);
    proof {
        assert(views_of(headers@).map_values(|s: Seq<char>| lines_of(s))
            =~= T::spec_headers().map_values(|s: Seq<char>| lines_of(s)));
    }
    let n = data.len();
    let mut idx: usize = 0;
    while idx < n
        invariant
            n == data@.len(),
            idx <= n,
            table_titles(table) == Some(
                T::spec_headers().map_values(|s: Seq<char>| lines_of(s)),
            ),
            table_rows(table).len() == idx,
            forall|i: int|
                0 <= i < idx as int ==> table_rows(table)[i] == (
                #[trigger] data@[i]).spec_row().map_values(|s: Seq<char>| lines_of(s)),
        decreases n - idx,
    {
        let row_strings = data[idx].into_vec();
        let row = vec_to_row(&row_strings);
        add_row(&mut table, row);
        proof {
            assert(views_of(row_strings@).map_values(|s: Seq<char>| lines_of(s))
                =~= data@[idx as int].spec_row().map_values(|s: Seq<char>| lines_of(s)));
        }
        idx += 1;
    }
    table
}

/// Function that turns a vector of tabular records into the formatted
/// text of the assembled table.
pub fn into_string<T: Tablefy>(data: &Vec<T>) -> (s: String)
    ensures
        exists|t: prettytable::Table|
            #[trigger] assembled::<T>(t, data@) && s@ == table_render(t),
{
    let table = into_table(data);
    let s = render_table(&table);
    proof {
        assert(assembled::<T>(table, data@) && s@ == table_render(table));
    }
    s
}

/// Builds the table for a vector of tabular records and hands back its
/// formatted text.
pub fn tablefy<T: Tablefy>(data: Vec<T>) -> (s: String)
    ensures
        exists|t: prettytable::Table|
            #[trigger] assembled::<T>(t, data@) && s@ == table_render(t),
{
    into_string(&data)
}

} // verus!
