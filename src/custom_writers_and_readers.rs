//! The delimited-text table behind each store file, its byte encoding, and
//! the scanning reader and appending writer over it.
use vstd::prelude::*;
use crate::store_error::StoreError;
use crate::text::str_eq;

verus! {

#[verifier::external_type_specification]
#[verifier::external_body]
pub struct ExCsvError(csv::Error);

/// The records that the csv crate reads from `bytes` (no header handling,
/// every record with as many fields as the first), or `None` where it fails.
pub uninterp spec fn csv_records_of(bytes: Seq<u8>) -> Option<Seq<Seq<Seq<char>>>>;

/// The bytes that the csv crate writes for one record, terminator included.
pub uninterp spec fn csv_record_bytes(fields: Seq<Seq<char>>) -> Seq<u8>;

/// Relies on csv::ReaderBuilder::from_reader and Reader::records: reading the
/// whole input gives its records in order, or the first error met.
#[verifier::external_body]
fn parse_csv_records(bytes: &[u8]) -> (r: Result<Vec<Vec<String>>, csv::Error>)
    ensures
        r is Ok ==> csv_records_of(bytes@) == Some(r->Ok_0.deep_view()),
        r is Err ==> csv_records_of(bytes@) is None,
{
    let mut reader = csv::ReaderBuilder::new().has_headers(false).from_reader(bytes);
    let mut records = Vec::new();
    for record in reader.records() {
        records.push(record?.iter().map(String::from).collect());
    }
    Ok(records)
}

/// Relies on csv::Writer::write_record and Writer::into_inner over a fresh
/// in-memory buffer: the bytes of one record with its terminator. Neither
/// call fails there: write_record fails only on an I/O error or on a field
/// count that differs from an earlier record's, and into_inner only when
/// flushing fails, none of which a new `Vec` can cause.
#[verifier::external_body]
fn encode_csv_record(fields: &Vec<String>) -> (r: Result<Vec<u8>, csv::Error>)
    ensures
        r is Ok,
        r matches Ok(b) ==> b@ == csv_record_bytes(fields.deep_view()),
{
    let mut writer = csv::Writer::from_writer(Vec::new());
    writer.write_record(fields)?;
    match writer.into_inner() {
        Ok(bytes) => Ok(bytes),
        Err(e) => Err(csv::Error::from(e.into_error())),
    }
}

/// One stored row: its fields in column order.
pub type RowView = Seq<Seq<char>>;

/// A store file: its header row and the rows after it.
pub struct TableView {
    pub header: RowView,
    pub rows: Seq<RowView>,
}

/// The table that a file's records make: the first is the header.
pub open spec fn table_of_records(records: Seq<RowView>) -> TableView {
    if records.len() == 0 {
        TableView { header: Seq::empty(), rows: Seq::empty() }
    } else {
        TableView { header: records[0], rows: records.skip(1) }
    }
}

/// The bytes of a sequence of records, one after another.
pub open spec fn records_bytes(records: Seq<RowView>) -> Seq<u8>
    decreases records.len(),
{
    if records.len() == 0 {
        Seq::empty()
    } else {
        records_bytes(records.drop_last()) + csv_record_bytes(records.last())
    }
}

/// The bytes of a whole table: the header, then every row.
pub open spec fn table_bytes(t: TableView) -> Seq<u8> {
    records_bytes(seq![t.header] + t.rows)
}

/// A row is keyed by `name` when its first field is `name`.
pub open spec fn row_matches(row: RowView, name: Seq<char>) -> bool {
    row.len() > 0 && row[0] == name
}

/// How many rows are keyed by `name`.
pub open spec fn count_matches(rows: Seq<RowView>, name: Seq<char>) -> nat
    decreases rows.len(),
{
    if rows.len() == 0 {
        0
    } else {
        (if row_matches(rows[0], name) { 1nat } else { 0nat }) + count_matches(rows.skip(1), name)
    }
}

/// Whether a lookup found something.
pub open spec fn presence<V>(r: Result<Option<V>, StoreError>) -> Result<bool, StoreError> {
    match r {
        Ok(Some(_)) => Ok(true),
        Ok(None) => Ok(false),
        Err(e) => Err(e),
    }
}

/// Whether two rows hold the same fields.
pub fn same_fields(a: &Vec<String>, b: &Vec<String>) -> (r: bool)
    ensures
        r == (a.deep_view() == b.deep_view()),
{
    if a.len() != b.len() {
        assert(a.deep_view().len() != b.deep_view().len());
        return false;
    }
    let mut i: usize = 0;
    while i < a.len()
        invariant
            a.len() == b.len(),
            i <= a.len(),
            forall|j: int| 0 <= j < i ==> a.deep_view()[j] == b.deep_view()[j],
        decreases a.len() - i,
    {
        if !str_eq(a[i].as_str(), b[i].as_str()) {
            assert(a.deep_view()[i as int] != b.deep_view()[i as int]);
            return false;
        }
        i = i + 1;
    }
    assert(a.deep_view() =~= b.deep_view());
    true
}

/// The content of one store file, held in memory.
#[derive(Debug)]
pub struct CsvTable {
    pub header: Vec<String>,
    pub rows: Vec<Vec<String>>,
}

impl View for CsvTable {
    type V = TableView;

    open spec fn view(&self) -> TableView {
        TableView { header: self.header.deep_view(), rows: self.rows.deep_view() }
    }
}

/// Whether the row is keyed by `animal_name`.
pub fn row_is_keyed(row: &Vec<String>, animal_name: &str) -> (r: bool)
    ensures
        r == row_matches(row.deep_view(), animal_name@),
{
    if row.len() == 0 {
        false
    } else {
        str_eq(row[0].as_str(), animal_name)
    }
}

impl CsvTable {
    /// A table with the given header and no rows.
    pub fn with_header(header: Vec<String>) -> (r: CsvTable)
        ensures
            r@.header == header.deep_view(),
            r@.rows == Seq::<RowView>::empty(),
    {
        let rows: Vec<Vec<String>> = Vec::new();
        proof {
            assert(rows.deep_view() =~= Seq::<RowView>::empty());
        }
        CsvTable { header, rows }
    }

    /// Reads a table from delimited text: the first record is the header.
    pub fn from_csv_bytes(bytes: &[u8]) -> (r: Result<CsvTable, StoreError>)
        ensures
            csv_records_of(bytes@) is None ==> r == Err::<CsvTable, StoreError>(StoreError::Io),
            csv_records_of(bytes@) is Some ==> r is Ok && r->Ok_0@ == table_of_records(
                csv_records_of(bytes@)->Some_0,
            ),
    {
        match parse_csv_records(bytes) {
            Err(_) => Err(StoreError::Io),
            Ok(records) => {
                let ghost recs = records.deep_view();
                if records.len() == 0 {
                    let t = CsvTable::with_header(Vec::new());
                    proof {
                        assert(t@.header =~= Seq::<Seq<char>>::empty());
                        assert(t@ == table_of_records(recs));
                    }
                    Ok(t)
                } else {
                    let mut it = records;
                    let mut header: Vec<String> = Vec::new();
                    let mut rows: Vec<Vec<String>> = Vec::new();
                    let n = it.len();
                    let mut i: usize = 0;
                    while i < n
                        invariant
                            n == it.len(),
                            it.deep_view() == recs,
                            n > 0,
                            i <= n,
                            i > 0 ==> header.deep_view() == recs[0],
                            i > 0 ==> rows.deep_view() == recs.subrange(1, i as int),
                            i == 0 ==> rows.deep_view() == Seq::<RowView>::empty(),
                        decreases n - i,
                    {
                        let rec = it[i].clone();
                        proof {
                            lemma_vec_string_clone(&it[i as int], &rec);
                        }
                        if i == 0 {
                            header = rec;
                            proof {
                                assert(rows.deep_view() =~= recs.subrange(1, 1));
                            }
                        } else {
                            rows.push(rec);
                            proof {
                                assert(rows.deep_view() =~= recs.subrange(1, i + 1));
                            }
                        }
                        i = i + 1;
                    }
                    let t = CsvTable { header, rows };
                    proof {
                        assert(recs.subrange(1, n as int) =~= recs.skip(1));
                    }
                    Ok(t)
                }
            },
        }
    }

    /// Writes the table as delimited text: the header, then every row.
    pub fn to_csv_bytes(&self) -> (r: Result<Vec<u8>, StoreError>)
        ensures
            r is Ok,
            r matches Ok(b) ==> b@ == table_bytes(self@),
    {
        let mut out = match encode_csv_record(&self.header) {
            Ok(b) => b,
            Err(_) => return Err(StoreError::Io),
        };
        let ghost all = seq![self@.header] + self@.rows;
        proof {
            assert(all.take(1).drop_last() =~= Seq::<RowView>::empty());
            assert(all.take(1).last() == self@.header);
            assert(records_bytes(all.take(1).drop_last()) =~= Seq::<u8>::empty());
            assert(out@ =~= Seq::<u8>::empty() + csv_record_bytes(self@.header));
            assert(out@ =~= records_bytes(all.take(1)));
        }
        let mut i: usize = 0;
        while i < self.rows.len()
            invariant
                all == seq![self@.header] + self@.rows,
                i <= self.rows.len(),
                out@ == records_bytes(all.take(i + 1)),
            decreases self.rows.len() - i,
        {
            let mut b = match encode_csv_record(&self.rows[i]) {
                Ok(b) => b,
                Err(_) => return Err(StoreError::Io),
            };
            proof {
                assert(all.take(i + 2).drop_last() =~= all.take(i + 1));
                assert(all.take(i + 2).last() == self@.rows[i as int]);
            }
            out.append(&mut b);
            i = i + 1;
        }
        proof {
            assert(all.take(self.rows.len() + 1) =~= all);
        }
        Ok(out)
    }

    /// The bytes of the rows from `from` on, as an appending writer adds
    /// them after what the file already holds.
    pub fn rows_to_csv_bytes(&self, from: usize) -> (r: Result<Vec<u8>, StoreError>)
        requires
            from <= self.rows.len(),
        ensures
            r is Ok,
            r matches Ok(b) ==> b@ == records_bytes(
                self@.rows.subrange(from as int, self@.rows.len() as int),
            ),
    {
        let mut out: Vec<u8> = Vec::new();
        let ghost rows = self@.rows;
        proof {
            assert(rows.subrange(from as int, from as int) =~= Seq::<RowView>::empty());
            assert(out@ =~= records_bytes(rows.subrange(from as int, from as int)));
        }
        let mut i: usize = from;
        while i < self.rows.len()
            invariant
                rows == self@.rows,
                from <= i <= self.rows.len(),
                out@ == records_bytes(rows.subrange(from as int, i as int)),
            decreases self.rows.len() - i,
        {
            let mut b = match encode_csv_record(&self.rows[i]) {
                Ok(b) => b,
                Err(_) => return Err(StoreError::Io),
            };
            proof {
                assert(rows.subrange(from as int, i + 1).drop_last() =~= rows.subrange(from as int, i as int));
                assert(rows.subrange(from as int, i + 1).last() == rows[i as int]);
            }
            out.append(&mut b);
            i = i + 1;
        }
        Ok(out)
    }
}

pub proof fn lemma_vec_string_clone(a: &Vec<String>, b: &Vec<String>)
    requires
        b@.len() == a@.len(),
        forall|k: int| 0 <= k < a@.len() ==> #[trigger] b@[k] == a@[k],
    ensures
        b.deep_view() == a.deep_view(),
{
    assert(b.deep_view() =~= a.deep_view());
}

} // verus!

verus! {

/// A reader over a store file. The header is read once, when the file is
/// opened; every query scans the rows after it from the first, so no query
/// depends on an earlier one.
#[derive(Debug)]
pub struct CustomReader<'a> {
    pub header: &'a Vec<String>,
    pub rows: &'a Vec<Vec<String>>,
}

impl<'a> CustomReader<'a> {
    /// Every row of the file, header excluded.
    pub open spec fn stored(&self) -> Seq<RowView> {
        self.rows.deep_view()
    }

    /// The header row of the file.
    pub open spec fn header_row(&self) -> RowView {
        self.header.deep_view()
    }

    /// A reader over `table`.
    pub fn new(table: &'a CsvTable) -> (r: CustomReader<'a>)
        ensures
            r.stored() == table@.rows,
            r.header_row() == table@.header,
    {
        CustomReader { header: &table.header, rows: &table.rows }
    }
}

/// An appending writer: every write adds one row after the existing ones.
#[derive(Debug)]
pub struct CustomWriter {
    pub table: CsvTable,
}

impl CustomWriter {
    /// A writer positioned after the last row of `table`.
    pub fn new(table: CsvTable) -> (r: CustomWriter)
        ensures
            r.table@ == table@,
    {
        CustomWriter { table }
    }

    /// Appends one row.
    pub fn write_row(&mut self, fields: Vec<String>)
        ensures
            final(self).table@.header == old(self).table@.header,
            final(self).table@.rows == old(self).table@.rows.push(fields.deep_view()),
    {
        self.table.rows.push(fields);
        proof {
            assert(self.table@.rows =~= old(self).table@.rows.push(fields.deep_view()));
        }
    }

    /// The table with every row written so far.
    pub fn into_table(self) -> (r: CsvTable)
        ensures
            r@ == self.table@,
    {
        self.table
    }
}

} // verus!
