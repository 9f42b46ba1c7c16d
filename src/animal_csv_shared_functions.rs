//! The rewrite engine: deletion of one or all rows keyed by a name, copying
//! every other row in order into a fresh table that replaces the old one
//! only once it is complete.
use vstd::prelude::*;
use crate::custom_writers_and_readers::{CsvTable, RowView, TableView};
use crate::store_error::StoreError;
use crate::text::str_eq;

verus! {

/// The header word of the key column.
pub open spec fn name_column_word() -> Seq<char> {
    seq!['n', 'a', 'm', 'e']
}

pub open spec fn shift(o: Option<int>, by: int) -> Option<int> {
    match o {
        Some(k) => Some(k + by),
        None => None,
    }
}

/// The position of the first header column called `name`.
pub open spec fn key_column(header: RowView) -> Option<int>
    decreases header.len(),
{
    if header.len() == 0 {
        None
    } else if header[0] == name_column_word() {
        Some(0)
    } else {
        shift(key_column(header.skip(1)), 1)
    }
}

/// Whether the row's key column holds `name`.
pub open spec fn row_key_is(row: RowView, key: int, name: Seq<char>) -> bool {
    0 <= key < row.len() && row[key] == name
}

/// The rows left after deleting the first row whose key column holds
/// `name` (`all` false), or every such row (`all` true); the others keep
/// their order.
pub open spec fn delete_matching(rows: Seq<RowView>, key: int, name: Seq<char>, all: bool) -> Seq<
    RowView,
>
    decreases rows.len(),
{
    if rows.len() == 0 {
        Seq::empty()
    } else if row_key_is(rows[0], key, name) {
        if all {
            delete_matching(rows.skip(1), key, name, all)
        } else {
            rows.skip(1)
        }
    } else {
        seq![rows[0]] + delete_matching(rows.skip(1), key, name, all)
    }
}

/// What a deletion makes of a file: the same header and the remaining rows,
/// or an error when the header has no `name` column.
pub open spec fn deletion_outcome(t: TableView, name: Seq<char>, all: bool) -> Result<
    TableView,
    StoreError,
> {
    match key_column(t.header) {
        Some(k) => Ok(TableView { header: t.header, rows: delete_matching(t.rows, k, name, all) }),
        None => Err(StoreError::MissingNameColumn),
    }
}

/// The file as it stands after a deletion: replaced on success, untouched on failure.
pub open spec fn after_deletion(t: TableView, name: Seq<char>, all: bool) -> TableView {
    match deletion_outcome(t, name, all) {
        Ok(n) => n,
        Err(_) => t,
    }
}

/// Finds the key column of a header row.
pub fn find_key_column(header: &Vec<String>) -> (r: Option<usize>)
    ensures
        r matches Some(k) ==> key_column(header.deep_view()) == Some(k as int),
        r is None ==> key_column(header.deep_view()) is None,
{
    let ghost h = header.deep_view();
    proof {
        reveal_strlit("name");
        assert("name"@ =~= name_column_word());
        assert(h.skip(0) =~= h);
    }
    let mut i: usize = 0;
    while i < header.len()
        invariant
            h == header.deep_view(),
            "name"@ == name_column_word(),
            i <= header.len(),
            key_column(h) == shift(key_column(h.skip(i as int)), i as int),
        decreases header.len() - i,
    {
        proof {
            assert(h.skip(i as int).skip(1) =~= h.skip(i + 1));
            assert(h.skip(i as int)[0] == h[i as int]);
        }
        if str_eq(header[i].as_str(), "name") {
            proof {
                assert(key_column(h.skip(i as int)) == Some(0int));
            }
            return Some(i);
        }
        proof {
            assert(key_column(h.skip(i as int)) == shift(key_column(h.skip(i + 1)), 1));
        }
        i = i + 1;
    }
    proof {
        assert(h.skip(i as int) =~= Seq::<Seq<char>>::empty());
    }
    None
}

fn row_key_matches(row: &Vec<String>, key: usize, animal_name: &str) -> (r: bool)
    ensures
        r == row_key_is(row.deep_view(), key as int, animal_name@),
{
    if key < row.len() {
        str_eq(row[key].as_str(), animal_name)
    } else {
        false
    }
}

/// Copies every row of `table` but the deleted ones into a new table.
pub fn delete_animal_for_path(table: &CsvTable, animal_name: &str, delete_all: bool) -> (r: Result<
    CsvTable,
    StoreError,
>)
    ensures
        match deletion_outcome(table@, animal_name@, delete_all) {
            Ok(t) => r is Ok && r->Ok_0@ == t,
            Err(e) => r == Err::<CsvTable, StoreError>(e),
        },
{
    let key = match find_key_column(&table.header) {
        Some(k) => k,
        None => return Err(StoreError::MissingNameColumn),
    };
    let ghost rows = table@.rows;
    let ghost name = animal_name@;
    let ghost target = delete_matching(rows, key as int, name, delete_all);
    let header = table.header.clone();
    proof {
        crate::custom_writers_and_readers::lemma_vec_string_clone(&table.header, &header);
    }
    let mut out: Vec<Vec<String>> = Vec::new();
    let mut animal_killed = false;
    let mut i: usize = 0;
    proof {
        assert(rows.skip(0) =~= rows);
        assert(out.deep_view() + rows.skip(0) =~= rows);
        assert(out.deep_view() + delete_matching(rows.skip(0), key as int, name, delete_all)
            =~= target);
    }
    while i < table.rows.len()
        invariant
            rows == table@.rows,
            name == animal_name@,
            target == delete_matching(rows, key as int, name, delete_all),
            i <= table.rows.len(),
            !animal_killed || delete_all ==> out.deep_view() + delete_matching(
                rows.skip(i as int),
                key as int,
                name,
                delete_all,
            ) == target,
            animal_killed && !delete_all ==> out.deep_view() + rows.skip(i as int) == target,
        decreases table.rows.len() - i,
    {
        let ghost before = out.deep_view();
        proof {
            assert(rows.skip(i as int).skip(1) =~= rows.skip(i + 1));
            assert(rows.skip(i as int)[0] == rows[i as int]);
            assert(rows.skip(i as int) =~= seq![rows[i as int]] + rows.skip(i + 1));
        }
        let row_matches = row_key_matches(&table.rows[i], key, animal_name);
        if !row_matches || (animal_killed && !delete_all) {
            let row = table.rows[i].clone();
            proof {
                crate::custom_writers_and_readers::lemma_vec_string_clone(&table.rows[i as int], &row);
            }
            out.push(row);
            proof {
                assert(out.deep_view() =~= before.push(rows[i as int]));
                if animal_killed && !delete_all {
                    assert(out.deep_view() + rows.skip(i + 1) =~= before + rows.skip(i as int));
                } else {
                    let rest = delete_matching(rows.skip(i + 1), key as int, name, delete_all);
                    assert(out.deep_view() + rest =~= before + (seq![rows[i as int]] + rest));
                }
            }
        } else {
            proof {
                assert(row_key_is(rows[i as int], key as int, name));
                if !delete_all {
                    assert(delete_matching(rows.skip(i as int), key as int, name, delete_all)
                        == rows.skip(i + 1));
                } else {
                    assert(delete_matching(rows.skip(i as int), key as int, name, delete_all)
                        == delete_matching(rows.skip(i + 1), key as int, name, delete_all));
                }
            }
            animal_killed = true;
        }
        i = i + 1;
    }
    proof {
        assert(rows.skip(i as int) =~= Seq::<RowView>::empty());
        assert(out.deep_view() =~= target);
    }
    Ok(CsvTable { header, rows: out })
}

/// Replaces the file's rows by those left after the deletion, only once the
/// new rows are complete: on failure the file is left as it was.
fn commit_deletion(file: &mut CsvTable, animal_name: &str, delete_all: bool) -> (r: Result<
    (),
    StoreError,
>)
    ensures
        final(file)@ == after_deletion(old(file)@, animal_name@, delete_all),
        r is Ok <==> deletion_outcome(old(file)@, animal_name@, delete_all) is Ok,
        r matches Err(e) ==> deletion_outcome(old(file)@, animal_name@, delete_all) == Err::<
            TableView,
            StoreError,
        >(e),
{
    match delete_animal_for_path(file, animal_name, delete_all) {
        Ok(t) => {
            *file = t;
            Ok(())
        },
        Err(e) => Err(e),
    }
}

/// Deletes every row keyed by `animal_name` from the file.
pub fn delete_all_animals_for_path(animal_name: &str, file: &mut CsvTable) -> (r: Result<
    (),
    StoreError,
>)
    ensures
        final(file)@ == after_deletion(old(file)@, animal_name@, true),
        r is Ok <==> key_column(old(file)@.header) is Some,
        r is Err ==> r == Err::<(), StoreError>(StoreError::MissingNameColumn),
{
    commit_deletion(file, animal_name, true)
}

/// Deletes the first row keyed by `animal_name` from the file.
pub fn delete_one_animal_for_path(animal_name: &str, file: &mut CsvTable) -> (r: Result<
    (),
    StoreError,
>)
    ensures
        final(file)@ == after_deletion(old(file)@, animal_name@, false),
        r is Ok <==> key_column(old(file)@.header) is Some,
        r is Err ==> r == Err::<(), StoreError>(StoreError::MissingNameColumn),
{
    commit_deletion(file, animal_name, false)
}

} // verus!
