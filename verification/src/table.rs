//! Projection of a tab-separated table onto three named columns.
//!
//! The table is read and written by the `csv` crate: tab as delimiter,
//! lines that start with `#` skipped when reading. Its first record is the
//! header. The output starts with the header `read_id`, `sequence`,
//! `qualities` and holds, for each later record of the input and in the
//! same order, the three fields that stand under those names.
//!
//! A projection has three steps: all records are read, the records are
//! projected to rows, the rows are written. The records are looked at in
//! input order and the first one that fails decides the error. A header
//! in which one of the three names is missing or stands twice is a failure
//! of the first record after the header, so a table with no record after
//! the header always projects to the bare output header.

use crate::decode::decode_text;
use crate::text::same_text;
use vstd::prelude::*;
use vstd::string::*;
use vstd::utf8::{
    decode_utf8, encode_utf8, encode_utf8_decode_utf8, encode_utf8_valid_utf8, valid_utf8,
};

verus! {

/// One of the three columns that a projection keeps.
#[derive(Clone, Copy, Debug, PartialEq, Eq, Structural)]
pub enum Column {
    ReadId,
    Sequence,
    Qualities,
}

impl Column {
    /// The header name of the column.
    pub open spec fn name_spec(self) -> Seq<char> {
        match self {
            Column::ReadId => "read_id"@,
            Column::Sequence => "sequence"@,
            Column::Qualities => "qualities"@,
        }
    }

    /// The header name of the column.
    pub fn name(&self) -> (r: &'static str)
        ensures
            r@ == self.name_spec(),
    {
        match self {
            Column::ReadId => "read_id",
            Column::Sequence => "sequence",
            Column::Qualities => "qualities",
        }
    }

    /// The column that a header field names, if it names one.
    pub open spec fn named_by(field: Seq<char>) -> Option<Column> {
        if field == "read_id"@ {
            Some(Column::ReadId)
        } else if field == "sequence"@ {
            Some(Column::Sequence)
        } else if field == "qualities"@ {
            Some(Column::Qualities)
        } else {
            None
        }
    }

    /// Tells which column a header field names.
    pub fn of_field(field: &str) -> (r: Option<Column>)
        ensures
            r == Self::named_by(field@),
    {
        if same_text(field, "read_id") {
            Some(Column::ReadId)
        } else if same_text(field, "sequence") {
            Some(Column::Sequence)
        } else if same_text(field, "qualities") {
            Some(Column::Qualities)
        } else {
            None
        }
    }
}

/// Why a table could not be projected.
#[derive(Debug, PartialEq, Eq)]
pub enum TableError {
    /// The reader refused a record; the field holds its words.
    Read(String),
    /// The header lacks a column.
    MissingColumn(Column),
    /// The header names a column twice.
    DuplicateColumn(Column),
    /// A record ends before one of the three columns.
    ShortRow,
    /// The writer refused the output header; the field holds its words.
    WriteHeader(String),
    /// The writer refused a record; the field holds its words.
    WriteRow(String),
    /// The writer could not hand over what it wrote; the field holds its
    /// words.
    Flush(String),
    /// What the writer wrote is not UTF-8.
    InvalidUtf8,
}

/// Mathematical content of [`TableError`].
pub enum TableErrorView {
    Read(Seq<char>),
    MissingColumn(Column),
    DuplicateColumn(Column),
    ShortRow,
    WriteHeader(Seq<char>),
    WriteRow(Seq<char>),
    Flush(Seq<char>),
    InvalidUtf8,
}

impl View for TableError {
    type V = TableErrorView;

    open spec fn view(&self) -> TableErrorView {
        match self {
            TableError::Read(m) => TableErrorView::Read(m@),
            TableError::MissingColumn(c) => TableErrorView::MissingColumn(*c),
            TableError::DuplicateColumn(c) => TableErrorView::DuplicateColumn(*c),
            TableError::ShortRow => TableErrorView::ShortRow,
            TableError::WriteHeader(m) => TableErrorView::WriteHeader(m@),
            TableError::WriteRow(m) => TableErrorView::WriteRow(m@),
            TableError::Flush(m) => TableErrorView::Flush(m@),
            TableError::InvalidUtf8 => TableErrorView::InvalidUtf8,
        }
    }
}

impl Clone for TableError {
    fn clone(&self) -> (r: Self)
        ensures
            r@ == self@,
    {
        match self {
            TableError::Read(m) => TableError::Read(m.clone()),
            TableError::MissingColumn(c) => TableError::MissingColumn(*c),
            TableError::DuplicateColumn(c) => TableError::DuplicateColumn(*c),
            TableError::ShortRow => TableError::ShortRow,
            TableError::WriteHeader(m) => TableError::WriteHeader(m.clone()),
            TableError::WriteRow(m) => TableError::WriteRow(m.clone()),
            TableError::Flush(m) => TableError::Flush(m.clone()),
            TableError::InvalidUtf8 => TableError::InvalidUtf8,
        }
    }
}

impl TableErrorView {
    /// The wording of [`TableError::message`].
    pub open spec fn message_spec(self) -> Seq<char> {
        match self {
            TableErrorView::Read(m) => "Failed to parse TSV row: "@ + m,
            TableErrorView::MissingColumn(c) => "Failed to parse TSV row: missing field `"@
                + c.name_spec() + "`"@,
            TableErrorView::DuplicateColumn(c) => "Failed to parse TSV row: duplicate field `"@
                + c.name_spec() + "`"@,
            TableErrorView::ShortRow => "Failed to parse TSV row: expected field, but got end of row"@,
            TableErrorView::WriteHeader(m) => "Failed to write TSV header: "@ + m,
            TableErrorView::WriteRow(m) => "Failed to write TSV row: "@ + m,
            TableErrorView::Flush(m) => "Failed to flush TSV writer: "@ + m,
            TableErrorView::InvalidUtf8 => "Invalid UTF-8 in output"@,
        }
    }
}

impl TableError {
    /// A message for the caller.
    pub fn message(&self) -> (r: String)
        ensures
            r@ == self@.message_spec(),
    {
        match self {
            TableError::Read(m) => {
                let mut text = String::from_str("Failed to parse TSV row: ");
                text.append(m.as_str());
                text
            },
            TableError::MissingColumn(c) => {
                let mut text = String::from_str("Failed to parse TSV row: missing field `");
                text.append(c.name());
                text.append("`");
                text
            },
            TableError::DuplicateColumn(c) => {
                let mut text = String::from_str("Failed to parse TSV row: duplicate field `");
                text.append(c.name());
                text.append("`");
                text
            },
            TableError::ShortRow => String::from_str(
                "Failed to parse TSV row: expected field, but got end of row",
            ),
            TableError::WriteHeader(m) => {
                let mut text = String::from_str("Failed to write TSV header: ");
                text.append(m.as_str());
                text
            },
            TableError::WriteRow(m) => {
                let mut text = String::from_str("Failed to write TSV row: ");
                text.append(m.as_str());
                text
            },
            TableError::Flush(m) => {
                let mut text = String::from_str("Failed to flush TSV writer: ");
                text.append(m.as_str());
                text
            },
            TableError::InvalidUtf8 => String::from_str("Invalid UTF-8 in output"),
        }
    }
}

/// Where the three columns stand in a record.
#[derive(Clone, Copy, Debug, PartialEq, Eq, Structural)]
pub struct Columns {
    pub read_id: usize,
    pub sequence: usize,
    pub qualities: usize,
}

/// Mathematical content of [`Columns`].
pub struct ColumnsView {
    pub read_id: int,
    pub sequence: int,
    pub qualities: int,
}

impl View for Columns {
    type V = ColumnsView;

    open spec fn view(&self) -> ColumnsView {
        ColumnsView {
            read_id: self.read_id as int,
            sequence: self.sequence as int,
            qualities: self.qualities as int,
        }
    }
}

/// The columns found so far while a header is scanned from the left.
pub struct Found {
    pub read_id: Option<int>,
    pub sequence: Option<int>,
    pub qualities: Option<int>,
}

impl Found {
    /// Nothing found.
    pub open spec fn nothing() -> Found {
        Found { read_id: None, sequence: None, qualities: None }
    }

    /// The position found for a column.
    pub open spec fn get(self, c: Column) -> Option<int> {
        match c {
            Column::ReadId => self.read_id,
            Column::Sequence => self.sequence,
            Column::Qualities => self.qualities,
        }
    }

    /// The record with the position of a column set.
    pub open spec fn set(self, c: Column, k: int) -> Found {
        match c {
            Column::ReadId => Found { read_id: Some(k), ..self },
            Column::Sequence => Found { sequence: Some(k), ..self },
            Column::Qualities => Found { qualities: Some(k), ..self },
        }
    }
}

/// Scans the header fields from position `k` on. A field that names a
/// column found before is a duplicate and ends the scan.
pub open spec fn scan_header(header: Seq<Seq<char>>, k: int, found: Found) -> Result<
    Found,
    TableErrorView,
>
    decreases header.len() - k,
{
    if k < 0 || k >= header.len() {
        Ok(found)
    } else {
        match Column::named_by(header[k]) {
            None => scan_header(header, k + 1, found),
            Some(c) => if found.get(c) is Some {
                Err(TableErrorView::DuplicateColumn(c))
            } else {
                scan_header(header, k + 1, found.set(c, k))
            },
        }
    }
}

/// Where the three columns stand under a header. The first field that
/// repeats one of the three names is reported as a duplicate; failing
/// that, the first of `read_id`, `sequence`, `qualities` that no field
/// names is reported as missing.
pub open spec fn locate_spec(header: Seq<Seq<char>>) -> Result<ColumnsView, TableErrorView> {
    match scan_header(header, 0, Found::nothing()) {
        Err(e) => Err(e),
        Ok(found) => if found.read_id is None {
            Err(TableErrorView::MissingColumn(Column::ReadId))
        } else if found.sequence is None {
            Err(TableErrorView::MissingColumn(Column::Sequence))
        } else if found.qualities is None {
            Err(TableErrorView::MissingColumn(Column::Qualities))
        } else {
            Ok(
                ColumnsView {
                    read_id: found.read_id->0,
                    sequence: found.sequence->0,
                    qualities: found.qualities->0,
                },
            )
        },
    }
}

/// The outcome of locating columns with the error taken by its view.
pub open spec fn columns_result_view(r: Result<Columns, TableError>) -> Result<
    ColumnsView,
    TableErrorView,
> {
    match r {
        Ok(c) => Ok(c@),
        Err(e) => Err(e@),
    }
}

/// Whether `position` tells where column `c` stands among the first `k`
/// fields of a header: at the one field that names it, or nowhere when no
/// field names it.
pub open spec fn placed(header: Seq<Seq<char>>, k: int, c: Column, position: Option<int>) -> bool {
    match position {
        Some(i) => 0 <= i < k && Column::named_by(header[i]) == Some(c) && forall|j: int|
            0 <= j < k && j != i ==> Column::named_by(#[trigger] header[j]) != Some(c),
        None => forall|j: int| 0 <= j < k ==> Column::named_by(#[trigger] header[j]) != Some(c),
    }
}

/// Whether `found` tells where each column stands among the first `k`
/// fields of a header.
pub open spec fn found_before(header: Seq<Seq<char>>, k: int, found: Found) -> bool {
    &&& placed(header, k, Column::ReadId, found.read_id)
    &&& placed(header, k, Column::Sequence, found.sequence)
    &&& placed(header, k, Column::Qualities, found.qualities)
}

/// A scan that succeeds has found each column at the one field that names
/// it.
pub proof fn lemma_scan_header(header: Seq<Seq<char>>, k: int, found: Found)
    requires
        0 <= k <= header.len(),
        found_before(header, k, found),
    ensures
        scan_header(header, k, found) matches Ok(all) ==> found_before(
            header,
            header.len() as int,
            all,
        ),
    decreases header.len() - k,
{
    if k < header.len() {
        match Column::named_by(header[k]) {
            None => {
                lemma_scan_header(header, k + 1, found);
            },
            Some(c) => {
                if found.get(c) is None {
                    lemma_scan_header(header, k + 1, found.set(c, k));
                }
            },
        }
    }
}

/// Columns that are located stand where the three names stand, and no
/// other field of the header carries one of the names.
pub proof fn lemma_locate(header: Seq<Seq<char>>)
    ensures
        locate_spec(header) matches Ok(c) ==> {
            &&& 0 <= c.read_id < header.len() && header[c.read_id] == "read_id"@
            &&& 0 <= c.sequence < header.len() && header[c.sequence] == "sequence"@
            &&& 0 <= c.qualities < header.len() && header[c.qualities] == "qualities"@
            &&& forall|j: int|
                0 <= j < header.len() && Column::named_by(#[trigger] header[j]) is Some ==> j
                    == c.read_id || j == c.sequence || j == c.qualities
        },
{
    lemma_scan_header(header, 0, Found::nothing());
    if let Ok(all) = scan_header(header, 0, Found::nothing()) {
        if let Ok(c) = locate_spec(header) {
            let n = header.len() as int;
            assert(placed(header, n, Column::ReadId, all.read_id));
            assert(placed(header, n, Column::Sequence, all.sequence));
            assert(placed(header, n, Column::Qualities, all.qualities));
            assert forall|j: int|
                0 <= j < header.len() && Column::named_by(#[trigger] header[j]) is Some implies j
                == c.read_id || j == c.sequence || j == c.qualities by {
                match Column::named_by(header[j])->0 {
                    Column::ReadId => {
                        assert(j == all.read_id->0);
                    },
                    Column::Sequence => {
                        assert(j == all.sequence->0);
                    },
                    Column::Qualities => {
                        assert(j == all.qualities->0);
                    },
                }
            }
        }
    }
}

/// Whether column `c` is named by the field at position `i` of a header
/// and by no other field.
pub open spec fn named_once(header: Seq<Seq<char>>, c: Column, i: int) -> bool {
    &&& 0 <= i < header.len()
    &&& Column::named_by(header[i]) == Some(c)
    &&& forall|j: int|
        0 <= j < header.len() && j != i ==> Column::named_by(#[trigger] header[j]) != Some(c)
}

/// The columns found among the first `k` fields of a header in which the
/// three columns are named once, at `a`, `b` and `c`.
pub open spec fn found_among(k: int, a: int, b: int, c: int) -> Found {
    Found {
        read_id: if a < k {
            Some(a)
        } else {
            None
        },
        sequence: if b < k {
            Some(b)
        } else {
            None
        },
        qualities: if c < k {
            Some(c)
        } else {
            None
        },
    }
}

proof fn lemma_scan_finds(header: Seq<Seq<char>>, k: int, a: int, b: int, c: int)
    requires
        0 <= k <= header.len(),
        named_once(header, Column::ReadId, a),
        named_once(header, Column::Sequence, b),
        named_once(header, Column::Qualities, c),
    ensures
        scan_header(header, k, found_among(k, a, b, c)) == Ok::<Found, TableErrorView>(
            Found { read_id: Some(a), sequence: Some(b), qualities: Some(c) },
        ),
    decreases header.len() - k,
{
    if k < header.len() {
        let found = found_among(k, a, b, c);
        match Column::named_by(header[k]) {
            None => {
                assert(found_among(k + 1, a, b, c) == found);
            },
            Some(Column::ReadId) => {
                assert(k == a);
                assert(found_among(k + 1, a, b, c) == found.set(Column::ReadId, k));
            },
            Some(Column::Sequence) => {
                assert(k == b);
                assert(found_among(k + 1, a, b, c) == found.set(Column::Sequence, k));
            },
            Some(Column::Qualities) => {
                assert(k == c);
                assert(found_among(k + 1, a, b, c) == found.set(Column::Qualities, k));
            },
        }
        lemma_scan_finds(header, k + 1, a, b, c);
    }
}

/// Under a header that names each of the three columns once, the columns
/// are located, and where the names stand. With [`lemma_locate`]: the
/// columns are located exactly when each name stands in the header once.
pub proof fn lemma_locate_succeeds(header: Seq<Seq<char>>, a: int, b: int, c: int)
    requires
        named_once(header, Column::ReadId, a),
        named_once(header, Column::Sequence, b),
        named_once(header, Column::Qualities, c),
    ensures
        locate_spec(header) == Ok::<ColumnsView, TableErrorView>(
            ColumnsView { read_id: a, sequence: b, qualities: c },
        ),
{
    lemma_scan_finds(header, 0, a, b, c);
    assert(found_among(0, a, b, c) == Found::nothing());
}

/// Locates the three columns under a header.
pub fn locate_columns(header: &Vec<String>) -> (r: Result<Columns, TableError>)
    ensures
        columns_result_view(r) == locate_spec(header.deep_view()),
        r matches Ok(c) ==> c.read_id < header.len() && c.sequence < header.len() && c.qualities
            < header.len(),
{
    let ghost fields = header.deep_view();
    let mut read_id: Option<usize> = None;
    let mut sequence: Option<usize> = None;
    let mut qualities: Option<usize> = None;
    let mut k: usize = 0;
    while k < header.len()
        invariant
            k <= header.len(),
            fields == header.deep_view(),
            read_id matches Some(i) ==> i < k,
            sequence matches Some(i) ==> i < k,
            qualities matches Some(i) ==> i < k,
            scan_header(fields, 0, Found::nothing()) == scan_header(
                fields,
                k as int,
                Found {
                    read_id: match read_id {
                        Some(i) => Some(i as int),
                        None => None,
                    },
                    sequence: match sequence {
                        Some(i) => Some(i as int),
                        None => None,
                    },
                    qualities: match qualities {
                        Some(i) => Some(i as int),
                        None => None,
                    },
                },
            ),
        decreases header.len() - k,
    {
        assert(fields[k as int] == header[k as int]@);
        match Column::of_field(header[k].as_str()) {
            None => {},
            Some(Column::ReadId) => {
                if read_id.is_some() {
                    return Err(TableError::DuplicateColumn(Column::ReadId));
                }
                read_id = Some(k);
            },
            Some(Column::Sequence) => {
                if sequence.is_some() {
                    return Err(TableError::DuplicateColumn(Column::Sequence));
                }
                sequence = Some(k);
            },
            Some(Column::Qualities) => {
                if qualities.is_some() {
                    return Err(TableError::DuplicateColumn(Column::Qualities));
                }
                qualities = Some(k);
            },
        }
        k += 1;
    }
    match (read_id, sequence, qualities) {
        (None, _, _) => Err(TableError::MissingColumn(Column::ReadId)),
        (Some(_), None, _) => Err(TableError::MissingColumn(Column::Sequence)),
        (Some(_), Some(_), None) => Err(TableError::MissingColumn(Column::Qualities)),
        (Some(a), Some(b), Some(c)) => Ok(Columns { read_id: a, sequence: b, qualities: c }),
    }
}

/// One row of a sequence table: what a projection keeps of a record.
#[derive(Debug, Clone)]
pub struct SeqTableRow {
    /// The read identifier.
    pub read_id: String,
    /// The sequence as displayed.
    pub sequence: String,
    /// The quality scores as a string.
    pub qualities: String,
}

/// Mathematical content of [`SeqTableRow`].
pub struct SeqTableRowView {
    pub read_id: Seq<char>,
    pub sequence: Seq<char>,
    pub qualities: Seq<char>,
}

impl View for SeqTableRow {
    type V = SeqTableRowView;

    open spec fn view(&self) -> SeqTableRowView {
        SeqTableRowView {
            read_id: self.read_id@,
            sequence: self.sequence@,
            qualities: self.qualities@,
        }
    }
}

impl SeqTableRowView {
    /// The three fields in output order.
    pub open spec fn fields(self) -> Seq<Seq<char>> {
        seq![self.read_id, self.sequence, self.qualities]
    }
}

/// The views of a list of rows.
pub open spec fn row_views(rows: Seq<SeqTableRow>) -> Seq<SeqTableRowView> {
    Seq::new(rows.len(), |i: int| rows[i]@)
}

/// The row made of the three fields of a record that stand at the given
/// columns, or an error when the record ends before one of them.
pub open spec fn pick_spec(columns: ColumnsView, fields: Seq<Seq<char>>) -> Result<
    SeqTableRowView,
    TableErrorView,
> {
    if 0 <= columns.read_id < fields.len() && 0 <= columns.sequence < fields.len() && 0
        <= columns.qualities < fields.len() {
        Ok(
            SeqTableRowView {
                read_id: fields[columns.read_id],
                sequence: fields[columns.sequence],
                qualities: fields[columns.qualities],
            },
        )
    } else {
        Err(TableErrorView::ShortRow)
    }
}

/// What picking returned, taken by its views.
pub open spec fn picked_view(r: Result<SeqTableRow, TableError>) -> Result<
    SeqTableRowView,
    TableErrorView,
> {
    match r {
        Ok(row) => Ok(row@),
        Err(e) => Err(e@),
    }
}

/// Picks the three fields of a record that stand at the given columns.
pub fn pick(columns: &Columns, fields: &Vec<String>) -> (r: Result<SeqTableRow, TableError>)
    ensures
        picked_view(r) == pick_spec(columns@, fields.deep_view()),
{
    if columns.read_id < fields.len() && columns.sequence < fields.len() && columns.qualities
        < fields.len() {
        assert(fields.deep_view()[columns.read_id as int] == fields[columns.read_id as int]@);
        assert(fields.deep_view()[columns.sequence as int] == fields[columns.sequence as int]@);
        assert(fields.deep_view()[columns.qualities as int] == fields[columns.qualities as int]@);
        Ok(
            SeqTableRow {
                read_id: fields[columns.read_id].clone(),
                sequence: fields[columns.sequence].clone(),
                qualities: fields[columns.qualities].clone(),
            },
        )
    } else {
        Err(TableError::ShortRow)
    }
}

/// The rows kept of the records that follow a header whose columns are
/// `columns`, after the rows `kept` so far; or the first failure.
pub open spec fn project_rows(
    columns: Result<ColumnsView, TableErrorView>,
    records: Seq<Result<Seq<Seq<char>>, Seq<char>>>,
    kept: Seq<SeqTableRowView>,
) -> Result<Seq<SeqTableRowView>, TableErrorView>
    decreases records.len(),
{
    if records.len() == 0 {
        Ok(kept)
    } else {
        match records[0] {
            Err(m) => Err(TableErrorView::Read(m)),
            Ok(fields) => match columns {
                Err(e) => Err(e),
                Ok(c) => match pick_spec(c, fields) {
                    Err(e) => Err(e),
                    Ok(row) => project_rows(columns, records.drop_first(), kept.push(row)),
                },
            },
        }
    }
}

/// The rows of the projection of a table given as its records, header
/// first; or the first failure in record order. A record that the reader
/// refused fails with the reader's words; a record that was read fails
/// when the header does not place the three columns, or when the record
/// ends before one of them.
pub open spec fn project_table(records: Seq<Result<Seq<Seq<char>>, Seq<char>>>) -> Result<
    Seq<SeqTableRowView>,
    TableErrorView,
> {
    if records.len() == 0 {
        Ok(Seq::empty())
    } else {
        match records[0] {
            Err(m) => Err(TableErrorView::Read(m)),
            Ok(header) => project_rows(locate_spec(header), records.drop_first(), Seq::empty()),
        }
    }
}

/// A record as read, taken by the characters of its strings.
pub open spec fn record_view(record: Result<Vec<String>, String>) -> Result<
    Seq<Seq<char>>,
    Seq<char>,
> {
    match record {
        Ok(fields) => Ok(fields.deep_view()),
        Err(m) => Err(m@),
    }
}

/// The views of a list of records as read.
pub open spec fn record_views(records: Seq<Result<Vec<String>, String>>) -> Seq<
    Result<Seq<Seq<char>>, Seq<char>>,
> {
    Seq::new(records.len(), |i: int| record_view(records[i]))
}

/// What a projection returned, taken by its views.
pub open spec fn rows_result_view(r: Result<Vec<SeqTableRow>, TableError>) -> Result<
    Seq<SeqTableRowView>,
    TableErrorView,
> {
    match r {
        Ok(rows) => Ok(row_views(rows@)),
        Err(e) => Err(e@),
    }
}

/// A copy of a failure to locate the columns.
fn copy_failure(e: &TableError) -> (r: TableError)
    ensures
        r@ == e@,
{
    e.clone()
}

/// Projects the records of a table, header first, onto the three columns.
///
/// Each record is either the fields that the reader handed out or the
/// words of the error that stands in its place. The result holds one row
/// for every record after the header, in input order.
pub fn project_records(records: &Vec<Result<Vec<String>, String>>) -> (r: Result<
    Vec<SeqTableRow>,
    TableError,
>)
    ensures
        rows_result_view(r) == project_table(record_views(records@)),
{
    let ghost all = record_views(records@);
    let mut rows: Vec<SeqTableRow> = Vec::new();
    if records.len() == 0 {
        assert(row_views(rows@) =~= Seq::empty());
        return Ok(rows);
    }
    let located = match &records[0] {
        Err(m) => {
            assert(all[0] == record_view(records@[0]));
            return Err(TableError::Read(m.clone()));
        },
        Ok(header) => {
            assert(all[0] == record_view(records@[0]));
            locate_columns(header)
        },
    };
    let ghost columns = columns_result_view(located);
    let mut i: usize = 1;
    assert(all.drop_first() =~= all.skip(1));
    assert(row_views(rows@) =~= Seq::empty());
    while i < records.len()
        invariant
            1 <= i <= records.len(),
            all == record_views(records@),
            columns == columns_result_view(located),
            project_table(all) == project_rows(columns, all.skip(i as int), row_views(rows@)),
        decreases records.len() - i,
    {
        let ghost rest = all.skip(i as int);
        assert(rest[0] == record_view(records@[i as int]));
        assert(rest.drop_first() =~= all.skip(i as int + 1));
        match &records[i] {
            Err(m) => {
                return Err(TableError::Read(m.clone()));
            },
            Ok(fields) => match &located {
                Err(e) => {
                    return Err(copy_failure(e));
                },
                Ok(c) => match pick(c, fields) {
                    Err(e) => {
                        return Err(e);
                    },
                    Ok(row) => {
                        let ghost before = row_views(rows@);
                        rows.push(row);
                        assert(row_views(rows@) =~= before.push(row@));
                    },
                },
            },
        }
        i += 1;
    }
    assert(all.skip(i as int).len() == 0);
    Ok(rows)
}

/// `csv::Reader`, carried through unread. What a reader over text will
/// hand out is spoken of through [`pending_rows`].
#[verifier::external_type_specification]
#[verifier::external_body]
#[verifier::reject_recursive_types(R)]
pub struct ExCsvReader<R>(csv::Reader<R>);

/// A `csv::Writer` that writes into a byte vector, carried through unread.
/// What it has been given is spoken of through [`written`].
#[verifier::external_body]
pub struct TsvWriter {
    inner: csv::Writer<Vec<u8>>,
}

/// The records that `csv` reads from a text with tab as delimiter, `#` as
/// comment mark and the first record not set apart, in order.
pub uninterp spec fn tsv_rows(text: Seq<char>) -> Seq<Result<Seq<Seq<char>>, Seq<char>>>;

/// The records that a reader has yet to hand out.
pub uninterp spec fn pending_rows(reader: csv::Reader<&[u8]>) -> Seq<
    Result<Seq<Seq<char>>, Seq<char>>,
>;

/// The bytes that a writer has been given so far.
pub uninterp spec fn written(writer: TsvWriter) -> Seq<u8>;

/// What a read step returned, taken by the characters of its strings.
pub open spec fn step_view(row: Option<Result<Vec<String>, String>>) -> Option<
    Result<Seq<Seq<char>>, Seq<char>>,
> {
    match row {
        Some(r) => Some(record_view(r)),
        None => None,
    }
}

/// `csv::ReaderBuilder`: a reader over the bytes of the text, with tab as
/// delimiter, `#` as comment mark and `has_headers` off, so that the
/// header comes out as the first record. What it will hand out is given
/// the name [`tsv_rows`].
#[verifier::external_body]
fn open_tsv(text: &str) -> (reader: csv::Reader<&[u8]>)
    ensures
        pending_rows(reader) == tsv_rows(text@),
{
    csv::ReaderBuilder::new().delimiter(b'\t').has_headers(false).comment(Some(b'#')).from_reader(
        text.as_bytes(),
    )
}

/// `csv::Reader::records` and one `next` on it: hands out the first record
/// not handed out yet, its fields copied into strings, or the text that
/// its error displays; hands out nothing, and changes nothing, when no
/// record is left.
#[verifier::external_body]
fn next_row(reader: &mut csv::Reader<&[u8]>) -> (row: Option<Result<Vec<String>, String>>)
    ensures
        step_view(row) == (if pending_rows(*old(reader)).len() > 0 {
            Some(pending_rows(*old(reader))[0])
        } else {
            None
        }),
        pending_rows(*final(reader)) == (if pending_rows(*old(reader)).len() > 0 {
            pending_rows(*old(reader)).drop_first()
        } else {
            pending_rows(*old(reader))
        }),
{
    reader.records().next().map(
        |r| match r {
            Ok(record) => Ok(record.iter().map(String::from).collect()),
            Err(e) => Err(e.to_string()),
        },
    )
}

/// `csv::WriterBuilder`: a writer into an empty byte vector, with tab as
/// delimiter.
#[verifier::external_body]
fn new_tsv_writer() -> (writer: TsvWriter)
    ensures
        written(writer) == Seq::<u8>::empty(),
{
    TsvWriter { inner: csv::WriterBuilder::new().delimiter(b'\t').from_writer(Vec::new()) }
}

/// `csv::Writer::write_record` with three fields, on a writer with tab as
/// delimiter and every other setting at its default. It succeeds: the
/// writer refuses only a record of another length than its first, and
/// every record it gets here has three fields; and its inner writer, a
/// byte vector, refuses nothing. The writer has then been given, after
/// the bytes it had, the UTF-8 bytes of the three fields with a tab
/// between them and a line feed at the end, where a field that holds a
/// tab, a double quote, a carriage return or a line feed stands between
/// double quotes with its double quotes doubled.
#[verifier::external_body]
fn write_row(writer: &mut TsvWriter, a: &str, b: &str, c: &str) -> (r: Result<
    (),
    String,
>)
    ensures
        r is Ok,
        r is Ok ==> written(*final(writer)) == written(*old(writer)) + encode_utf8(
            record_text(a@, b@, c@),
        ),
{
    writer.inner.write_record([a, b, c]).map_err(|e| e.to_string())
}

/// `csv::Writer::into_inner`: it succeeds, since flushing into a byte
/// vector cannot fail, and the vector holds the bytes that the writer was
/// given.
#[verifier::external_body]
fn finish(writer: TsvWriter) -> (r: Result<Vec<u8>, String>)
    ensures
        r is Ok,
        r matches Ok(bytes) ==> bytes@ == written(writer),
{
    writer.inner.into_inner().map_err(|e| e.to_string())
}

/// Whether a character forces the field that holds it between quotes.
pub open spec fn is_special(c: char) -> bool {
    c == '\t' || c == '"' || c == '\r' || c == '\n'
}

/// Whether a field is written between quotes.
pub open spec fn needs_quotes(field: Seq<char>) -> bool {
    exists|i: int| 0 <= i < field.len() && is_special(#[trigger] field[i])
}

/// A field with each of its double quotes written twice.
pub open spec fn double_quotes(field: Seq<char>) -> Seq<char>
    decreases field.len(),
{
    if field.len() == 0 {
        Seq::empty()
    } else if field[0] == '"' {
        seq!['"', '"'] + double_quotes(field.drop_first())
    } else {
        seq![field[0]] + double_quotes(field.drop_first())
    }
}

/// A field as it stands in the output: as it is, or between quotes.
pub open spec fn field_text(field: Seq<char>) -> Seq<char> {
    if needs_quotes(field) {
        seq!['"'] + double_quotes(field) + seq!['"']
    } else {
        field
    }
}

/// A record of three fields as it stands in the output.
pub open spec fn record_text(a: Seq<char>, b: Seq<char>, c: Seq<char>) -> Seq<char> {
    field_text(a) + seq!['\t'] + field_text(b) + seq!['\t'] + field_text(c) + seq!['\n']
}

/// The header record of the output.
pub open spec fn header_text() -> Seq<char> {
    record_text("read_id"@, "sequence"@, "qualities"@)
}

/// The records of a list of rows, one after the other.
pub open spec fn rows_text(rows: Seq<SeqTableRowView>) -> Seq<char>
    decreases rows.len(),
{
    if rows.len() == 0 {
        Seq::empty()
    } else {
        rows_text(rows.drop_last()) + record_text(
            rows.last().read_id,
            rows.last().sequence,
            rows.last().qualities,
        )
    }
}

/// A whole output table: the header record, then the rows.
pub open spec fn table_text(rows: Seq<SeqTableRowView>) -> Seq<char> {
    header_text() + rows_text(rows)
}

/// The text of the projection of a table given as its records, header
/// first: the output table of the rows that the records project to, or
/// the first failure in record order.
pub open spec fn projection_spec(records: Seq<Result<Seq<Seq<char>>, Seq<char>>>) -> Result<
    Seq<char>,
    TableErrorView,
> {
    match project_table(records) {
        Err(e) => Err(e),
        Ok(rows) => Ok(table_text(rows)),
    }
}

/// What a projection returned, taken by its views.
pub open spec fn text_result_view(r: Result<String, TableError>) -> Result<
    Seq<char>,
    TableErrorView,
> {
    match r {
        Ok(text) => Ok(text@),
        Err(e) => Err(e@),
    }
}

/// The encoding of two texts one after the other is the encoding of the
/// first followed by the encoding of the second.
pub proof fn lemma_encode_concat(x: Seq<char>, y: Seq<char>)
    ensures
        encode_utf8(x + y) == encode_utf8(x) + encode_utf8(y),
    decreases x.len(),
{
    if x.len() == 0 {
        assert(x + y =~= y);
        assert(encode_utf8(x) + encode_utf8(y) =~= encode_utf8(y));
    } else {
        lemma_encode_concat(x.drop_first(), y);
        assert((x + y).drop_first() =~= x.drop_first() + y);
        assert((x + y)[0] == x[0]);
        assert(encode_utf8(x + y) =~= encode_utf8(x) + encode_utf8(y));
    }
}

/// The outcome of a projection whose bytes have all been written: the
/// text they encode, or an error when they encode none.
pub fn text_of_output(bytes: Vec<u8>) -> (r: Result<String, TableError>)
    ensures
        match r {
            Ok(text) => valid_utf8(bytes@) && text@ == decode_utf8(bytes@),
            Err(e) => !valid_utf8(bytes@) && e@ == TableErrorView::InvalidUtf8,
        },
{
    match decode_text(bytes) {
        Ok(text) => Ok(text),
        Err(_) => Err(TableError::InvalidUtf8),
    }
}

/// Reads every record of a tab-separated text, header first.
fn read_records(tsv: &str) -> (records: Vec<Result<Vec<String>, String>>)
    ensures
        record_views(records@) == tsv_rows(tsv@),
{
    let mut reader = open_tsv(tsv);
    let mut records: Vec<Result<Vec<String>, String>> = Vec::new();
    assert(record_views(records@) =~= Seq::empty());
    loop
        invariant
            tsv_rows(tsv@) == record_views(records@) + pending_rows(reader),
        ensures
            tsv_rows(tsv@) == record_views(records@),
        decreases pending_rows(reader).len(),
    {
        let ghost before = record_views(records@);
        let ghost pending = pending_rows(reader);
        match next_row(&mut reader) {
            None => {
                assert(before + pending =~= before);
                break ;
            },
            Some(record) => {
                records.push(record);
                assert(record_views(records@) =~= before.push(pending[0]));
                assert(before.push(pending[0]) + pending.drop_first() =~= before + pending);
            },
        }
    }
    records
}

/// Writes the output header and the rows as tab-separated text.
fn write_rows(rows: &Vec<SeqTableRow>) -> (r: Result<String, TableError>)
    ensures
        r matches Ok(text) && text@ == table_text(row_views(rows@)),
{
    let mut writer = new_tsv_writer();
    match write_row(&mut writer, "read_id", "sequence", "qualities") {
        Ok(()) => {},
        Err(m) => {
            return Err(TableError::WriteHeader(m));
        },
    }
    let ghost all = row_views(rows@);
    let mut i: usize = 0;
    assert(all.take(0) =~= Seq::empty());
    assert(written(writer) =~= encode_utf8(table_text(all.take(0)))) by {
        assert(header_text() + Seq::<char>::empty() =~= header_text());
    }
    while i < rows.len()
        invariant
            i <= rows.len(),
            all == row_views(rows@),
            written(writer) == encode_utf8(table_text(all.take(i as int))),
        decreases rows.len() - i,
    {
        let row = &rows[i];
        match write_row(
            &mut writer,
            row.read_id.as_str(),
            row.sequence.as_str(),
            row.qualities.as_str(),
        ) {
            Ok(()) => {},
            Err(m) => {
                return Err(TableError::WriteRow(m));
            },
        }
        proof {
            let done = all.take(i as int);
            let next = all.take(i as int + 1);
            let line = record_text(row.read_id@, row.sequence@, row.qualities@);
            assert(next.drop_last() =~= done);
            assert(next.last() == rows@[i as int]@);
            assert(table_text(next) =~= table_text(done) + line);
            lemma_encode_concat(table_text(done), line);
        }
        i += 1;
    }
    assert(all.take(i as int) =~= all);
    match finish(writer) {
        Err(m) => Err(TableError::Flush(m)),
        Ok(bytes) => {
            proof {
                encode_utf8_valid_utf8(table_text(all));
                encode_utf8_decode_utf8(table_text(all));
            }
            text_of_output(bytes)
        },
    }
}

/// Projects a tab-separated table onto `read_id`, `sequence` and
/// `qualities`.
///
/// The result is the output header followed, in input order, by one
/// record for every record after the input header, made of its three
/// fields under those names. The first record that the reader refuses,
/// that meets a header without exactly one field for each of the three
/// names, or that ends before one of the three columns, is reported
/// instead, and nothing is written. A table without such a record always
/// projects.
pub fn filter_seq_table_columns(tsv: &str) -> (r: Result<String, TableError>)
    ensures
        text_result_view(r) == projection_spec(tsv_rows(tsv@)),
{
    let records = read_records(tsv);
    match project_records(&records) {
        Err(e) => Err(e),
        Ok(rows) => write_rows(&rows),
    }
}

/// A table that is only a header, or is empty, projects to no row
/// whatever its header holds, and its text is the bare output header.
pub proof fn lemma_header_only_projects(records: Seq<Result<Seq<Seq<char>>, Seq<char>>>)
    requires
        records.len() == 0 || (records.len() == 1 && records[0] is Ok),
    ensures
        project_table(records) == Ok::<Seq<SeqTableRowView>, TableErrorView>(Seq::empty()),
        table_text(Seq::empty()) == header_text(),
{
    if records.len() == 1 {
        assert(records.drop_first().len() == 0);
    }
    assert(header_text() + Seq::<char>::empty() =~= header_text());
}

/// A table of a good header and one good record projects to one row: the
/// three fields of the record that stand under the three names. Its text
/// is the output header followed by the record of the row.
pub proof fn lemma_one_record_projects(header: Seq<Seq<char>>, record: Seq<Seq<char>>)
    requires
        locate_spec(header) is Ok,
        record.len() == header.len(),
    ensures
        locate_spec(header) matches Ok(c) && project_table(
            seq![
                Ok::<Seq<Seq<char>>, Seq<char>>(header),
                Ok::<Seq<Seq<char>>, Seq<char>>(record),
            ],
        ) == Ok::<Seq<SeqTableRowView>, TableErrorView>(
            seq![
                SeqTableRowView {
                    read_id: record[c.read_id],
                    sequence: record[c.sequence],
                    qualities: record[c.qualities],
                },
            ],
        ) && table_text(
            seq![
                SeqTableRowView {
                    read_id: record[c.read_id],
                    sequence: record[c.sequence],
                    qualities: record[c.qualities],
                },
            ],
        ) == header_text() + record_text(
            record[c.read_id],
            record[c.sequence],
            record[c.qualities],
        ),
{
    lemma_locate(header);
    let records = seq![
        Ok::<Seq<Seq<char>>, Seq<char>>(header),
        Ok::<Seq<Seq<char>>, Seq<char>>(record),
    ];
    let rest = records.drop_first();
    assert(rest[0] == Ok::<Seq<Seq<char>>, Seq<char>>(record));
    assert(rest.drop_first().len() == 0);
    let c = locate_spec(header)->Ok_0;
    let row = SeqTableRowView {
        read_id: record[c.read_id],
        sequence: record[c.sequence],
        qualities: record[c.qualities],
    };
    assert(pick_spec(c, record) == Ok::<SeqTableRowView, TableErrorView>(row));
    let kept = Seq::<SeqTableRowView>::empty().push(row);
    assert(kept =~= seq![row]);
    assert(project_rows(locate_spec(header), rest.drop_first(), kept) == Ok::<
        Seq<SeqTableRowView>,
        TableErrorView,
    >(kept));
    assert(seq![row].drop_last().len() == 0);
    assert(rows_text(seq![row].drop_last()) =~= Seq::<char>::empty());
    assert(rows_text(seq![row]) =~= record_text(row.read_id, row.sequence, row.qualities));
}

/// A field without a tab, a double quote, a carriage return or a line feed
/// passes into the output unchanged.
pub proof fn lemma_plain_field_is_unchanged(field: Seq<char>)
    requires
        forall|i: int| 0 <= i < field.len() ==> !is_special(#[trigger] field[i]),
    ensures
        field_text(field) == field,
{
}

/// The output header is the three names with tabs between them and a line
/// feed after them.
pub proof fn lemma_header_text()
    ensures
        header_text() == "read_id\tsequence\tqualities\n"@,
{
    reveal_strlit("read_id");
    reveal_strlit("sequence");
    reveal_strlit("qualities");
    reveal_strlit("read_id\tsequence\tqualities\n");
    let a = "read_id"@;
    let b = "sequence"@;
    let c = "qualities"@;
    assert(!needs_quotes(a));
    assert(!needs_quotes(b));
    assert(!needs_quotes(c));
    assert(header_text() =~= "read_id\tsequence\tqualities\n"@);
}

/// Two projections of the same table give the same text or the same
/// error: what `filter_seq_table_columns` returns is determined by the
/// table alone.
pub proof fn lemma_projection_is_determined(
    tsv: Seq<char>,
    ra: Result<String, TableError>,
    rb: Result<String, TableError>,
)
    requires
        text_result_view(ra) == projection_spec(tsv_rows(tsv)),
        text_result_view(rb) == projection_spec(tsv_rows(tsv)),
    ensures
        text_result_view(ra) == text_result_view(rb),
{
}

/// A table whose header names each of the three columns once and whose
/// records were all read and are as long as the header projects to one
/// output record for each of them, in order, after the output header.
pub proof fn lemma_good_table_projects(
    header: Seq<Seq<char>>,
    rows: Seq<Seq<Seq<char>>>,
    a: int,
    b: int,
    c: int,
)
    requires
        named_once(header, Column::ReadId, a),
        named_once(header, Column::Sequence, b),
        named_once(header, Column::Qualities, c),
        forall|i: int| 0 <= i < rows.len() ==> (#[trigger] rows[i]).len() == header.len(),
    ensures
        project_table(good_records(header, rows)) == Ok::<Seq<SeqTableRowView>, TableErrorView>(
            kept_rows(rows, a, b, c),
        ),
        projection_spec(good_records(header, rows)) == Ok::<Seq<char>, TableErrorView>(
            table_text(kept_rows(rows, a, b, c)),
        ),
        kept_rows(rows, a, b, c).len() == rows.len(),
{
    lemma_locate_succeeds(header, a, b, c);
    let records = good_records(header, rows);
    let data = records.drop_first();
    assert(data =~= Seq::new(rows.len(), |i: int| Ok::<Seq<Seq<char>>, Seq<char>>(rows[i])));
    lemma_rows_project(header, rows, a, b, c, 0);
    assert(data.skip(0) =~= data);
    assert(kept_rows(rows, a, b, c).take(0) =~= Seq::empty());
}

/// The three names of the output header.
pub open spec fn output_header() -> Seq<Seq<char>> {
    seq!["read_id"@, "sequence"@, "qualities"@]
}

/// The records of an output table: the output header, then the three
/// fields of each row.
pub open spec fn output_records(rows: Seq<SeqTableRowView>) -> Seq<
    Result<Seq<Seq<char>>, Seq<char>>,
> {
    good_records(output_header(), Seq::new(rows.len(), |i: int| rows[i].fields()))
}

/// Projecting the records of an output table gives its rows back: on
/// records, a second projection changes nothing.
pub proof fn lemma_output_records_project_to_themselves(rows: Seq<SeqTableRowView>)
    ensures
        project_table(output_records(rows)) == Ok::<Seq<SeqTableRowView>, TableErrorView>(rows),
        projection_spec(output_records(rows)) == Ok::<Seq<char>, TableErrorView>(table_text(rows)),
{
    reveal_strlit("read_id");
    reveal_strlit("sequence");
    reveal_strlit("qualities");
    let header = output_header();
    let fields = Seq::new(rows.len(), |i: int| rows[i].fields());
    assert("read_id"@ != "sequence"@) by {
        assert("read_id"@.len() != "sequence"@.len());
    }
    assert("read_id"@ != "qualities"@) by {
        assert("read_id"@.len() != "qualities"@.len());
    }
    assert("sequence"@ != "qualities"@) by {
        assert("sequence"@.len() != "qualities"@.len());
    }
    assert(named_once(header, Column::ReadId, 0));
    assert(named_once(header, Column::Sequence, 1));
    assert(named_once(header, Column::Qualities, 2));
    lemma_good_table_projects(header, fields, 0, 1, 2);
    assert(kept_rows(fields, 0, 1, 2) =~= rows);
}

/// The records of a table all of whose records were read: the header,
/// then the rows.
pub open spec fn good_records(header: Seq<Seq<char>>, rows: Seq<Seq<Seq<char>>>) -> Seq<
    Result<Seq<Seq<char>>, Seq<char>>,
> {
    seq![Ok::<Seq<Seq<char>>, Seq<char>>(header)] + Seq::new(
        rows.len(),
        |i: int| Ok::<Seq<Seq<char>>, Seq<char>>(rows[i]),
    )
}

/// The rows kept of records when the three columns stand at `a`, `b`, `c`.
pub open spec fn kept_rows(rows: Seq<Seq<Seq<char>>>, a: int, b: int, c: int) -> Seq<
    SeqTableRowView,
> {
    Seq::new(
        rows.len(),
        |i: int| SeqTableRowView { read_id: rows[i][a], sequence: rows[i][b], qualities: rows[i][c] },
    )
}

proof fn lemma_rows_project(
    header: Seq<Seq<char>>,
    rows: Seq<Seq<Seq<char>>>,
    a: int,
    b: int,
    c: int,
    k: int,
)
    requires
        0 <= k <= rows.len(),
        0 <= a < header.len(),
        0 <= b < header.len(),
        0 <= c < header.len(),
        forall|i: int| 0 <= i < rows.len() ==> (#[trigger] rows[i]).len() == header.len(),
    ensures
        project_rows(
            Ok(ColumnsView { read_id: a, sequence: b, qualities: c }),
            Seq::new(rows.len(), |i: int| Ok::<Seq<Seq<char>>, Seq<char>>(rows[i])).skip(k),
            kept_rows(rows, a, b, c).take(k),
        ) == Ok::<Seq<SeqTableRowView>, TableErrorView>(kept_rows(rows, a, b, c)),
    decreases rows.len() - k,
{
    let data = Seq::new(rows.len(), |i: int| Ok::<Seq<Seq<char>>, Seq<char>>(rows[i]));
    let kept = kept_rows(rows, a, b, c);
    let columns = ColumnsView { read_id: a, sequence: b, qualities: c };
    if k == rows.len() {
        assert(data.skip(k).len() == 0);
        assert(kept.take(k) =~= kept);
    } else {
        let rest = data.skip(k);
        assert(rest[0] == Ok::<Seq<Seq<char>>, Seq<char>>(rows[k]));
        assert(rows[k].len() == header.len());
        assert(pick_spec(columns, rows[k]) == Ok::<SeqTableRowView, TableErrorView>(kept[k]));
        assert(rest.drop_first() =~= data.skip(k + 1));
        assert(kept.take(k).push(kept[k]) =~= kept.take(k + 1));
        lemma_rows_project(header, rows, a, b, c, k + 1);
    }
}

} // verus!
