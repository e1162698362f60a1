//! Turning `;`-separated values into a text table.
use vstd::prelude::*;
use ascii_table::AsciiTable;

verus! {

#[verifier::external_type_specification]
#[verifier::external_body]
pub struct ExCsvError(csv::Error);

#[verifier::external_type_specification]
#[verifier::external_body]
pub struct ExAsciiTable(AsciiTable);

/// What the `csv` crate reads from `data` with `;` between fields and a header line: the
/// header fields and the fields of every later line, or `None` when the text is no valid
/// table (such as lines of unequal length).
pub uninterp spec fn csv_table(data: Seq<char>) -> Option<(Seq<Seq<char>>, Seq<Seq<Seq<char>>>)>;

/// The column headers that a table layout of the `ascii_table` crate holds, by column.
pub uninterp spec fn table_headers(t: AsciiTable) -> Map<usize, Seq<char>>;

/// The layout keeps the default settings apart from column headers: no table width set (so
/// the default width of 100 holds, the crate's `auto_table_width` feature being off), and
/// every column aligned left with no width limit.
pub uninterp spec fn table_plain(t: AsciiTable) -> bool;

/// The text that `AsciiTable::format` draws for a layout with the given column headers and
/// otherwise default settings (see `table_plain`), and the given rows.
pub uninterp spec fn table_text(headers: Map<usize, Seq<char>>, rows: Seq<Seq<Seq<char>>>) -> Seq<char>;

/// Reads `data` with `csv::ReaderBuilder`, `;` as delimiter: every record, then the header
/// record. The contract claims that the outcome is `csv_table` of the text: the fields
/// read, or an error exactly when `csv_table` gives none.
#[verifier::external_body]
fn csv_records(data: &str) -> (r: Result<(Vec<String>, Vec<Vec<String>>), csv::Error>)
    ensures
        match r {
            Ok((h, rows)) => csv_table(data@) == Some((h.deep_view(), rows.deep_view())),
            Err(_) => csv_table(data@) is None,
        },
{
    let mut rdr = csv::ReaderBuilder::new().delimiter(b';').from_reader(data.as_bytes());
    let mut rows: Vec<Vec<String>> = Vec::new();
    for result in rdr.records() {
        rows.push(result?.iter().map(|s| s.to_string()).collect());
    }
    let headers: Vec<String> = rdr.headers()?.iter().map(|h| h.to_string()).collect();
    Ok((headers, rows))
}

/// `AsciiTable::default()`: a layout with no column settings.
#[verifier::external_body]
fn new_table() -> (table: AsciiTable)
    ensures
        table_headers(table).dom().is_empty(),
        table_plain(table),
{
    AsciiTable::default()
}

/// `AsciiTable::column(index).set_header(header)`: the header of one column is set, the
/// others are kept; a column that is new gets the default alignment and width, so a layout
/// with default settings keeps them.
#[verifier::external_body]
fn set_header(t: &mut AsciiTable, index: usize, header: &str)
    ensures
        table_headers(*final(t)) == table_headers(*old(t)).insert(index, header@),
        table_plain(*old(t)) ==> table_plain(*final(t)),
{
    t.column(index).set_header(header);
}

/// `AsciiTable::format`: the text that a layout with default settings draws for `rows`.
#[verifier::external_body]
fn format_table(t: &AsciiTable, rows: &Vec<Vec<String>>) -> (r: String)
    requires
        table_plain(*t),
    ensures
        r@ == table_text(table_headers(*t), rows.deep_view()),
{
    t.format(rows)
}

/// The headers by column index.
pub open spec fn header_map(headers: Seq<Seq<char>>) -> Map<usize, Seq<char>> {
    Map::new(|i: usize| i < headers.len(), |i: usize| headers[i as int])
}

/// The rows that the table shows: the rows read, or, when there are none, one row of empty
/// cells as wide as the header.
pub open spec fn shown_rows(headers: Seq<Seq<char>>, rows: Seq<Seq<Seq<char>>>) -> Seq<Seq<Seq<char>>> {
    if rows.len() == 0 {
        seq![Seq::new(headers.len(), |i: int| Seq::<char>::empty())]
    } else {
        rows
    }
}

/// Why a table could not be drawn.
#[derive(Debug)]
pub enum TableError {
    /// The text is no valid table of `;`-separated values.
    Csv(csv::Error),
}

/// The text table of the given header and rows, under the header; see `shown_rows`.
pub fn ascii_table_of(headers: Vec<String>, rows: Vec<Vec<String>>) -> (r: String)
    ensures
        r@ == table_text(header_map(headers.deep_view()), shown_rows(headers.deep_view(), rows.deep_view())),
{
    let mut t = new_table();
    let mut i: usize = 0;
    while i < headers.len()
        invariant
            i <= headers@.len(),
            table_headers(t) == Map::new(|k: usize| k < i, |k: usize| headers.deep_view()[k as int]),
            table_plain(t),
        decreases headers@.len() - i,
    {
        set_header(&mut t, i, headers[i].as_str());
        proof {
            assert(table_headers(t) =~= Map::new(|k: usize| k < i + 1, |k: usize| headers.deep_view()[k as int]));
        }
        i = i + 1;
    }
    proof {
        assert(table_headers(t) =~= header_map(headers.deep_view()));
    }
    let mut rows = rows;
    let ghost read = rows.deep_view();
    if rows.len() == 0 {
        let mut blank: Vec<String> = Vec::new();
        let mut j: usize = 0;
        while j < headers.len()
            invariant
                j <= headers@.len(),
                blank@.len() == j,
                forall|k: int| 0 <= k < j ==> (#[trigger] blank@[k])@ == Seq::<char>::empty(),
            decreases headers@.len() - j,
        {
            blank.push(String::new());
            j = j + 1;
        }
        assert(blank.deep_view() =~= Seq::new(headers@.len(), |k: int| Seq::<char>::empty()));
        assert(headers.deep_view().len() == headers@.len());
        rows.push(blank);
        assert(rows.deep_view() =~= shown_rows(headers.deep_view(), read));
    }
    format_table(&t, &rows)
}

/// The text table of `;`-separated values whose first line is the header; see
/// `ascii_table_of`. Text that is no valid table is refused.
pub fn parse_into_ascii_table(data: String) -> (r: Result<String, TableError>)
    ensures
        match csv_table(data@) {
            None => r is Err,
            Some((h, rows)) => (r matches Ok(t) && t@ == table_text(header_map(h), shown_rows(h, rows))),
        },
{
    match csv_records(data.as_str()) {
        Err(e) => Err(TableError::Csv(e)),
        Ok((headers, rows)) => Ok(ascii_table_of(headers, rows)),
    }
}

/// Every row read is drawn, all of them and in their order: when the text has at least one
/// data line the rows of the table are exactly the rows read; only a table without data
/// lines gets one row, of as many empty cells as there are headers.
pub proof fn law_all_rows_drawn(headers: Seq<Seq<char>>, rows: Seq<Seq<Seq<char>>>)
    ensures
        rows.len() > 0 ==> shown_rows(headers, rows) == rows,
        rows.len() > 0 ==> shown_rows(headers, rows).len() == rows.len(),
        rows.len() == 0 ==> shown_rows(headers, rows).len() == 1,
        rows.len() == 0 ==> shown_rows(headers, rows)[0].len() == headers.len(),
        rows.len() == 0 ==> forall|j: int| 0 <= j < headers.len() ==> #[trigger] shown_rows(headers, rows)[0][j] == Seq::<char>::empty(),
{
}

} // verus!
