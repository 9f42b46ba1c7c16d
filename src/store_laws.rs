//! Laws that relate the store's operations to one another.
use vstd::prelude::*;
use crate::animal_alive_csv::{both_sexes, counted, encode_alive, find_alive, lemma_alive_round_trip};
use crate::animal_csv_shared_functions::{
    after_deletion, delete_matching, deletion_outcome, key_column,
};
use crate::animal_data_csv::{encode_data, find_data, lemma_data_round_trip, valid_data};
use crate::animal_structs::{AnimalAliveView, AnimalDataView};
use crate::custom_writers_and_readers::{count_matches, row_matches, CustomReader, RowView, TableView};

verus! {

/// Appending an individual to an empty file and then looking up its name
/// finds that individual.
pub proof fn law_append_then_find_alive(rows: Seq<RowView>, e: AnimalAliveView)
    requires
        rows.len() == 0,
    ensures
        find_alive(rows.push(encode_alive(e)), e.name) == Ok::<
            Option<AnimalAliveView>,
            crate::store_error::StoreError,
        >(Some(e)),
{
    lemma_alive_round_trip(e);
    assert(rows.push(encode_alive(e))[0] == encode_alive(e));
}

/// Appending valid species data to an empty file and then looking up its
/// name finds that data.
pub proof fn law_append_then_find_data(rows: Seq<RowView>, e: AnimalDataView)
    requires
        rows.len() == 0,
        valid_data(e),
    ensures
        find_data(rows.push(encode_data(e)), e.name) == Ok::<
            Option<AnimalDataView>,
            crate::store_error::StoreError,
        >(Some(e)),
{
    lemma_data_round_trip(e);
    assert(rows.push(encode_data(e))[0] == encode_data(e));
}

/// Appending a row adds one to the count of its key and leaves every other
/// count as it was.
pub proof fn law_append_count(rows: Seq<RowView>, row: RowView, name: Seq<char>)
    ensures
        count_matches(rows.push(row), name) == count_matches(rows, name) + (if row_matches(
            row,
            name,
        ) {
            1nat
        } else {
            0nat
        }),
    decreases rows.len(),
{
    if rows.len() == 0 {
        assert(rows.push(row).skip(1) =~= Seq::<RowView>::empty());
        assert(rows.push(row)[0] == row);
        assert(count_matches(Seq::<RowView>::empty(), name) == 0);
    } else {
        assert(rows.push(row).skip(1) =~= rows.skip(1).push(row));
        assert(rows.push(row)[0] == rows[0]);
        law_append_count(rows.skip(1), row, name);
    }
}

proof fn lemma_delete_one_rows(rows: Seq<RowView>, name: Seq<char>)
    ensures
        count_matches(delete_matching(rows, 0, name, false), name) + (if count_matches(rows, name)
            > 0 {
            1nat
        } else {
            0nat
        }) == count_matches(rows, name),
        count_matches(rows, name) == 0 ==> delete_matching(rows, 0, name, false) == rows,
    decreases rows.len(),
{
    if rows.len() > 0 {
        lemma_delete_one_rows(rows.skip(1), name);
        if !row_matches(rows[0], name) {
            let rest = delete_matching(rows.skip(1), 0, name, false);
            let out = seq![rows[0]] + rest;
            assert(out[0] == rows[0]);
            assert(out.skip(1) =~= rest);
            if count_matches(rows, name) == 0 {
                assert(out =~= rows);
            }
        }
    }
}

proof fn lemma_delete_all_rows(rows: Seq<RowView>, name: Seq<char>, other: Seq<char>)
    ensures
        count_matches(delete_matching(rows, 0, name, true), name) == 0,
        other != name ==> count_matches(delete_matching(rows, 0, name, true), other)
            == count_matches(rows, other),
    decreases rows.len(),
{
    if rows.len() > 0 {
        lemma_delete_all_rows(rows.skip(1), name, other);
        if !row_matches(rows[0], name) {
            let rest = delete_matching(rows.skip(1), 0, name, true);
            let out = seq![rows[0]] + rest;
            assert(out[0] == rows[0]);
            assert(out.skip(1) =~= rest);
        }
    }
}

/// Deleting one individual of a species from a file keyed by its first
/// column lowers that species' count by one, and changes nothing when none
/// is stored.
pub proof fn law_delete_one_count(t: TableView, name: Seq<char>)
    requires
        key_column(t.header) == Some(0int),
    ensures
        count_matches(after_deletion(t, name, false).rows, name) + (if count_matches(t.rows, name)
            > 0 {
            1nat
        } else {
            0nat
        }) == count_matches(t.rows, name),
        count_matches(t.rows, name) == 0 ==> after_deletion(t, name, false) == t,
{
    lemma_delete_one_rows(t.rows, name);
}

/// Deleting every individual of a species from a file keyed by its first
/// column leaves none of it and every other species' count unchanged.
pub proof fn law_delete_all_count(t: TableView, name: Seq<char>, other: Seq<char>)
    requires
        key_column(t.header) == Some(0int),
    ensures
        count_matches(after_deletion(t, name, true).rows, name) == 0,
        other != name ==> count_matches(after_deletion(t, name, true).rows, other)
            == count_matches(t.rows, other),
        after_deletion(t, name, true).header == t.header,
{
    lemma_delete_all_rows(t.rows, name, other);
}

/// A deletion that fails before its commit leaves the file exactly as it was.
pub proof fn law_failed_deletion_keeps_file(t: TableView, name: Seq<char>, all: bool)
    requires
        deletion_outcome(t, name, all) is Err,
    ensures
        after_deletion(t, name, all) == t,
{
}

/// Every query scans the whole file from its first row and leaves the
/// reader unchanged, so a reader asked the same question twice gives the
/// same answer twice.
pub proof fn law_repeated_query<'a>(before: CustomReader<'a>, after: CustomReader<'a>, name: Seq<char>)
    requires
        after == before,
    ensures
        find_alive(after.stored(), name) == find_alive(before.stored(), name),
        find_data(after.stored(), name) == find_data(before.stored(), name),
        counted(after.stored(), name, false) == counted(before.stored(), name, false),
        counted(after.stored(), name, true) == counted(before.stored(), name, true),
        both_sexes(after.stored(), name) == both_sexes(before.stored(), name),
{
}

} // verus!
