//! The header rows of the store files, and the empty files that start them.
use vstd::prelude::*;
use crate::animal_csv_shared_functions::{key_column, name_column_word};
use crate::custom_writers_and_readers::{CsvTable, RowView};

verus! {

pub open spec fn data_header() -> RowView {
    seq!["name"@, "class"@, "predators"@, "preys"@]
}

pub open spec fn alive_header() -> RowView {
    seq!["name"@, "sex"@]
}

/// Both store headers are keyed by their first column.
pub proof fn lemma_headers_keyed_first()
    ensures
        key_column(data_header()) == Some(0int),
        key_column(alive_header()) == Some(0int),
{
    reveal_strlit("name");
    assert("name"@ =~= name_column_word());
}

fn words(ws: &[&str]) -> (r: Vec<String>)
    ensures
        r@.len() == ws@.len(),
        forall|i: int| 0 <= i < ws@.len() ==> #[trigger] r@[i]@ == ws@[i]@,
{
    let mut v: Vec<String> = Vec::new();
    let mut i: usize = 0;
    while i < ws.len()
        invariant
            i <= ws@.len(),
            v@.len() == i,
            forall|j: int| 0 <= j < i ==> #[trigger] v@[j]@ == ws@[j]@,
        decreases ws@.len() - i,
    {
        v.push(String::from_str(ws[i]));
        i = i + 1;
    }
    v
}

/// The header row of the species file.
pub fn animals_data_header() -> (r: Vec<String>)
    ensures
        r.deep_view() == data_header(),
{
    let r = words(&["name", "class", "predators", "preys"]);
    assert(r.deep_view() =~= data_header());
    r
}

/// The header row of the living-individuals file.
pub fn animals_alive_header() -> (r: Vec<String>)
    ensures
        r.deep_view() == alive_header(),
{
    let r = words(&["name", "sex"]);
    assert(r.deep_view() =~= alive_header());
    r
}

/// A species file to create when none exists yet: its header and no rows.
pub fn create_animals_data_if_not_exists(file_exists: bool) -> (r: Option<CsvTable>)
    ensures
        file_exists <==> r is None,
        r matches Some(t) ==> t@.header == data_header() && t@.rows.len() == 0,
{
    if file_exists {
        None
    } else {
        Some(CsvTable::with_header(animals_data_header()))
    }
}

/// A living-individuals file to create when none exists yet: its header and no rows.
pub fn create_animals_alive_if_not_exists(file_exists: bool) -> (r: Option<CsvTable>)
    ensures
        file_exists <==> r is None,
        r matches Some(t) ==> t@.header == alive_header() && t@.rows.len() == 0,
{
    if file_exists {
        None
    } else {
        Some(CsvTable::with_header(animals_alive_header()))
    }
}

/// A fresh scratch file laid out as the living-individuals file.
pub fn create_test_animals_alive() -> (r: CsvTable)
    ensures
        r@.header == alive_header(),
        r@.rows.len() == 0,
{
    CsvTable::with_header(animals_alive_header())
}

/// A fresh scratch file laid out as the species file.
pub fn create_test_animals_data() -> (r: CsvTable)
    ensures
        r@.header == data_header(),
        r@.rows.len() == 0,
{
    CsvTable::with_header(animals_data_header())
}

} // verus!
