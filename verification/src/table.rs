//! The extension listing as a `comfy_table` table.
use vstd::prelude::*;

verus! {

#[verifier::external_type_specification]
#[verifier::external_body]
pub struct ExTable(comfy_table::Table);

/// The cells of each data row of a table, in order, as text.
pub uninterp spec fn table_rows(t: comfy_table::Table) -> Seq<Seq<Seq<char>>>;

/// The cells of a table's header row as text (empty when none was set).
pub uninterp spec fn table_header(t: comfy_table::Table) -> Seq<Seq<char>>;

/// `Table::new`: a table with no header and no rows.
#[verifier::external_body]
fn table_new() -> (t: comfy_table::Table)
    ensures
        table_header(t) == Seq::<Seq<char>>::empty(),
        table_rows(t) == Seq::<Seq<Seq<char>>>::empty(),
{
    comfy_table::Table::new()
}

/// `Table::set_header` with one cell per string: the header row becomes
/// those cells (a cell keeps its text, split into lines and joined back);
/// the rows stay.
#[verifier::external_body]
fn table_set_header(t: &mut comfy_table::Table, cells: Vec<String>)
    ensures
        table_header(*final(t)) == cells.deep_view(),
        table_rows(*final(t)) == table_rows(*old(t)),
{
    t.set_header(cells);
}

/// `Table::set_content_arrangement(ContentArrangement::Dynamic)`: column widths
/// follow the terminal when it is rendered; header and rows stay.
#[verifier::external_body]
fn table_use_dynamic_arrangement(t: &mut comfy_table::Table)
    ensures
        table_header(*final(t)) == table_header(*old(t)),
        table_rows(*final(t)) == table_rows(*old(t)),
{
    t.set_content_arrangement(comfy_table::ContentArrangement::Dynamic);
}

/// `Table::add_row` with one cell per string: the row is appended; the
/// header stays.
#[verifier::external_body]
fn table_add_row(t: &mut comfy_table::Table, cells: Vec<String>)
    ensures
        table_header(*final(t)) == table_header(*old(t)),
        table_rows(*final(t)) == table_rows(*old(t)).push(cells.deep_view()),
{
    t.add_row(cells);
}

/// The listing table: header `Name`, `Type`, `Installed`, `Latest`, `Status`,
/// dynamic column widths, and the given rows in order.
pub fn extension_table(rows: Vec<Vec<String>>) -> (t: comfy_table::Table)
    ensures
        table_header(t) == seq!["Name"@, "Type"@, "Installed"@, "Latest"@, "Status"@],
        table_rows(t) == rows.deep_view(),
{
    let mut t = table_new();
    let mut header: Vec<String> = Vec::new();
    header.push(String::from_str("Name"));
    header.push(String::from_str("Type"));
    header.push(String::from_str("Installed"));
    header.push(String::from_str("Latest"));
    header.push(String::from_str("Status"));
    assert(header.deep_view() =~= seq!["Name"@, "Type"@, "Installed"@, "Latest"@, "Status"@]);
    table_set_header(&mut t, header);
    table_use_dynamic_arrangement(&mut t);
    let ghost d = rows.deep_view();
    let n = rows.len();
    let mut i: usize = 0;
    assert(table_rows(t) =~= d.take(0));
    while i < n
        invariant
            n == d.len(),
            i <= n,
            rows.deep_view() == d,
            table_header(t) == seq!["Name"@, "Type"@, "Installed"@, "Latest"@, "Status"@],
            table_rows(t) == d.take(i as int),
        decreases n - i,
    {
        let row = rows[i].clone();
        assert(row.deep_view() =~= d[i as int]) by {
            assert(row@ == rows[i as int]@);
        }
        table_add_row(&mut t, row);
        assert(d.take(i + 1) =~= d.take(i as int).push(d[i as int]));
        i = i + 1;
    }
    assert(d.take(n as int) =~= d);
    t
}

} // verus!
