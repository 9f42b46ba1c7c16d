//! Living individuals as stored rows `[name, sex]`, and the queries that a
//! scan of the living-individuals file answers. A scan visits rows in file
//! order and stops with an error at the first visited row that does not
//! decode: a corrupt row is never skipped.
use vstd::prelude::*;
use crate::animal_csv_shared_functions::{
    after_deletion, delete_all_animals_for_path, delete_one_animal_for_path, key_column,
};
use crate::animal_data_csv::decode_data;
use crate::animal_structs::{
    lemma_sex_tag_inverse, sex_of_tag, sex_tag, AnimalAlive, AnimalAliveView, AnimalData, Sex,
};
use crate::csv_files_creator::{animals_data_header, data_header};
use crate::custom_writers_and_readers::{
    count_matches, presence, row_is_keyed, row_matches, same_fields, CsvTable, CustomReader,
    CustomWriter, RowView,
};
use crate::store_error::StoreError;
use crate::text::str_eq;

verus! {

/// The row that stores an individual.
pub open spec fn encode_alive(a: AnimalAliveView) -> RowView {
    seq![a.name, sex_tag(a.sex)]
}

/// The individual that a row stores, or why it stores none.
pub open spec fn decode_alive(row: RowView) -> Result<AnimalAliveView, StoreError> {
    if row.len() < 2 {
        Err(StoreError::InvalidField)
    } else {
        match sex_of_tag(row[1]) {
            Some(sex) => Ok(AnimalAliveView { name: row[0], sex }),
            None => Err(StoreError::InvalidField),
        }
    }
}

/// Scanning from the first row: the first row keyed by `name`, decoded, or
/// the error of the first row before it (or it) that does not decode.
pub open spec fn find_alive(rows: Seq<RowView>, name: Seq<char>) -> Result<
    Option<AnimalAliveView>,
    StoreError,
>
    decreases rows.len(),
{
    if rows.len() == 0 {
        Ok(None)
    } else {
        match decode_alive(rows[0]) {
            Err(e) => Err(e),
            Ok(a) => if row_matches(rows[0], name) {
                Ok(Some(a))
            } else {
                find_alive(rows.skip(1), name)
            },
        }
    }
}

/// Scanning from the first row with what was seen so far: true as soon as
/// individuals of `name` of both sexes were visited, false at the end of
/// the file, an error at the first visited row that does not decode.
pub open spec fn both_sexes_from(
    rows: Seq<RowView>,
    name: Seq<char>,
    male: bool,
    female: bool,
) -> Result<bool, StoreError>
    decreases rows.len(),
{
    if rows.len() == 0 {
        Ok(false)
    } else {
        match decode_alive(rows[0]) {
            Err(e) => Err(e),
            Ok(a) => {
                let keyed = row_matches(rows[0], name);
                let m = male || (keyed && a.sex == Sex::Male);
                let f = female || (keyed && a.sex == Sex::Female);
                if m && f {
                    Ok(true)
                } else {
                    both_sexes_from(rows.skip(1), name, m, f)
                }
            },
        }
    }
}

pub open spec fn both_sexes(rows: Seq<RowView>, name: Seq<char>) -> Result<bool, StoreError> {
    both_sexes_from(rows, name, false, false)
}

/// Whether a row decodes as species data (`as_data`) or as an individual.
pub open spec fn row_decodes(row: RowView, as_data: bool) -> bool {
    if as_data {
        decode_data(row) is Ok
    } else {
        decode_alive(row) is Ok
    }
}

pub open spec fn all_rows_decode(rows: Seq<RowView>, as_data: bool) -> bool {
    forall|i: int| 0 <= i < rows.len() ==> row_decodes(#[trigger] rows[i], as_data)
}

/// A count visits every row: the number of rows keyed by `name` when all
/// of them decode, else an error.
pub open spec fn counted(rows: Seq<RowView>, name: Seq<char>, as_data: bool) -> Result<nat, StoreError> {
    if all_rows_decode(rows, as_data) {
        Ok(count_matches(rows, name))
    } else {
        Err(StoreError::InvalidField)
    }
}

pub open spec fn count_view(r: Result<usize, StoreError>) -> Result<nat, StoreError> {
    match r {
        Ok(n) => Ok(n as nat),
        Err(e) => Err(e),
    }
}

/// Whether the row is keyed by `name` and holds an individual of sex `s`.
pub open spec fn row_of_sex(row: RowView, name: Seq<char>, s: Sex) -> bool {
    row_matches(row, name) && match decode_alive(row) {
        Ok(a) => a.sex == s,
        Err(_) => false,
    }
}

/// Whether a row keyed by `name` holds an individual of sex `s`.
pub open spec fn has_keyed_sex(rows: Seq<RowView>, name: Seq<char>, s: Sex) -> bool {
    exists|i: int| 0 <= i < rows.len() && row_of_sex(#[trigger] rows[i], name, s)
}

pub open spec fn alive_lookup_view(r: Result<Option<AnimalAlive>, StoreError>) -> Result<
    Option<AnimalAliveView>,
    StoreError,
> {
    match r {
        Ok(Some(a)) => Ok(Some(a@)),
        Ok(None) => Ok(None),
        Err(e) => Err(e),
    }
}

proof fn lemma_has_keyed_sex_split(rows: Seq<RowView>, name: Seq<char>, s: Sex)
    requires
        rows.len() > 0,
    ensures
        has_keyed_sex(rows, name, s) == (row_of_sex(rows[0], name, s) || has_keyed_sex(
            rows.skip(1),
            name,
            s,
        )),
{
    let rest = rows.skip(1);
    if has_keyed_sex(rows, name, s) {
        let i = choose|i: int| 0 <= i < rows.len() && row_of_sex(#[trigger] rows[i], name, s);
        if i > 0 {
            assert(rest[i - 1] == rows[i]);
        }
    }
    if has_keyed_sex(rest, name, s) {
        let j = choose|j: int| 0 <= j < rest.len() && row_of_sex(#[trigger] rest[j], name, s);
        assert(rows[j + 1] == rest[j]);
    }
}

proof fn lemma_both_sexes_from(rows: Seq<RowView>, name: Seq<char>, male: bool, female: bool)
    requires
        all_rows_decode(rows, false),
        !(male && female),
    ensures
        both_sexes_from(rows, name, male, female) == Ok::<bool, StoreError>(
            (male || has_keyed_sex(rows, name, Sex::Male)) && (female || has_keyed_sex(
                rows,
                name,
                Sex::Female,
            )),
        ),
    decreases rows.len(),
{
    if rows.len() == 0 {
        assert(!has_keyed_sex(rows, name, Sex::Male));
        assert(!has_keyed_sex(rows, name, Sex::Female));
    } else {
        let rest = rows.skip(1);
        assert(all_rows_decode(rest, false)) by {
            assert forall|j: int| 0 <= j < rest.len() implies row_decodes(#[trigger] rest[j], false) by {
                assert(rest[j] == rows[j + 1]);
            }
        }
        assert(row_decodes(rows[0], false));
        lemma_has_keyed_sex_split(rows, name, Sex::Male);
        lemma_has_keyed_sex_split(rows, name, Sex::Female);
        let a = decode_alive(rows[0])->Ok_0;
        let keyed = row_matches(rows[0], name);
        let m = male || (keyed && a.sex == Sex::Male);
        let f = female || (keyed && a.sex == Sex::Female);
        assert(decode_alive(rows[0]) == Ok::<AnimalAliveView, StoreError>(a));
        assert(row_of_sex(rows[0], name, Sex::Male) == (keyed && a.sex == Sex::Male));
        assert(row_of_sex(rows[0], name, Sex::Female) == (keyed && a.sex == Sex::Female));
        if !(m && f) {
            lemma_both_sexes_from(rest, name, m, f);
        }
        if m && f {
            assert(both_sexes_from(rows, name, male, female) == Ok::<bool, StoreError>(true));
        } else {
            assert(both_sexes_from(rows, name, male, female) == both_sexes_from(rest, name, m, f));
        }
    }
}

/// In a file whose rows all decode, both sexes are found exactly when some
/// row of `name` holds a male and some row of `name` holds a female.
pub proof fn law_both_sexes(rows: Seq<RowView>, name: Seq<char>)
    requires
        all_rows_decode(rows, false),
    ensures
        both_sexes(rows, name) == Ok::<bool, StoreError>(
            has_keyed_sex(rows, name, Sex::Male) && has_keyed_sex(rows, name, Sex::Female),
        ),
{
    lemma_both_sexes_from(rows, name, false, false);
}

/// The sex whose stored word is `word`, if any.
pub fn sex_from_word(word: &str) -> (r: Option<Sex>)
    ensures
        r == sex_of_tag(word@),
{
    proof {
        reveal_strlit("male");
        reveal_strlit("female");
        assert("male"@ =~= sex_tag(Sex::Male));
        assert("female"@ =~= sex_tag(Sex::Female));
    }
    if str_eq(word, "male") {
        Some(Sex::Male)
    } else if str_eq(word, "female") {
        Some(Sex::Female)
    } else {
        None
    }
}

impl AnimalAlive {
    /// The stored row of this individual.
    pub fn to_csv(&self) -> (r: [String; 2])
        ensures
            r.deep_view() == encode_alive(self@),
    {
        let r = [self.name(), self.sex_str()];
        proof {
            assert(r.deep_view() =~= encode_alive(self@));
        }
        r
    }

    /// The stored row of this individual (same layout as `to_csv`).
    pub fn to_alive_csv(&self) -> (r: [String; 2])
        ensures
            r.deep_view() == encode_alive(self@),
    {
        self.to_csv()
    }

    /// The individual stored in a row.
    pub fn from_csv(fields: &[String]) -> (r: Result<AnimalAlive, StoreError>)
        ensures
            match r {
                Ok(a) => decode_alive(fields.deep_view()) == Ok::<AnimalAliveView, StoreError>(a@),
                Err(e) => decode_alive(fields.deep_view()) == Err::<AnimalAliveView, StoreError>(e),
            },
    {
        if fields.len() < 2 {
            return Err(StoreError::InvalidField);
        }
        match sex_from_word(fields[1].as_str()) {
            Some(sex) => Ok(AnimalAlive::born(fields[0].as_str(), sex)),
            None => Err(StoreError::InvalidField),
        }
    }
}

/// Decoding the stored row of an individual gives the individual back.
pub proof fn lemma_alive_round_trip(a: AnimalAliveView)
    ensures
        decode_alive(encode_alive(a)) == Ok::<AnimalAliveView, StoreError>(a),
{
    lemma_sex_tag_inverse(a.sex);
}

/// Whether a row decodes as species data (`as_data`) or as an individual.
fn row_decodes_as(row: &Vec<String>, as_data: bool) -> (r: bool)
    ensures
        r == row_decodes(row.deep_view(), as_data),
{
    let fields = row.as_slice();
    proof {
        assert(fields.deep_view() =~= row.deep_view());
    }
    if as_data {
        AnimalData::from_csv(fields).is_ok()
    } else {
        AnimalAlive::from_csv(fields).is_ok()
    }
}

/// Counts the rows keyed by `animal_name`, decoding every row.
fn count_decoded(rows: &Vec<Vec<String>>, animal_name: &str, as_data: bool) -> (r: Result<
    usize,
    StoreError,
>)
    ensures
        count_view(r) == counted(rows.deep_view(), animal_name@, as_data),
{
    let ghost all = rows.deep_view();
    let n = rows.len();
    let mut count: usize = 0;
    let mut i: usize = 0;
    proof {
        assert(all.skip(0) =~= all);
    }
    while i < n
        invariant
            n == rows.len(),
            all == rows.deep_view(),
            i <= n,
            count <= i,
            count + count_matches(all.skip(i as int), animal_name@) == count_matches(all, animal_name@),
            forall|j: int| 0 <= j < i ==> row_decodes(#[trigger] all[j], as_data),
        decreases n - i,
    {
        proof {
            assert(all.skip(i as int).skip(1) =~= all.skip(i + 1));
            assert(all.skip(i as int)[0] == all[i as int]);
        }
        if !row_decodes_as(&rows[i], as_data) {
            proof {
                assert(!row_decodes(all[i as int], as_data));
                assert(!all_rows_decode(all, as_data));
            }
            return Err(StoreError::InvalidField);
        }
        if row_is_keyed(&rows[i], animal_name) {
            count = count + 1;
        }
        i = i + 1;
    }
    proof {
        assert(all.skip(n as int) =~= Seq::<RowView>::empty());
        assert(all_rows_decode(all, as_data));
    }
    Ok(count)
}

impl<'a> CustomReader<'a> {
    /// How many rows are keyed by `animal_name`, decoding every row as the
    /// file's kind: species data under the species header, individuals
    /// otherwise.
    pub fn count_animal(&mut self, animal_name: &str) -> (r: Result<usize, StoreError>)
        ensures
            count_view(r) == counted(
                old(self).stored(),
                animal_name@,
                old(self).header_row() == data_header(),
            ),
            *final(self) == *old(self),
    {
        let data_header_row = animals_data_header();
        let as_data = same_fields(self.header, &data_header_row);
        count_decoded(self.rows, animal_name, as_data)
    }
}

/// Queries over the living-individuals file. Every query scans the file
/// from its first row and leaves the reader as it found it.
pub trait AnimalAliveReader: Sized {
    /// Every row of the file, header excluded.
    spec fn file_rows(&self) -> Seq<RowView>;

    /// The first individual keyed by `animal_name`.
    fn read_animal_alive(&mut self, animal_name: &str) -> (r: Result<Option<AnimalAlive>, StoreError>)
        ensures
            alive_lookup_view(r) == find_alive(old(self).file_rows(), animal_name@),
            *final(self) == *old(self),
    ;

    /// Whether individuals of both sexes are keyed by `animal_name`.
    fn has_both_sexes(&mut self, animal_name: &str) -> (r: Result<bool, StoreError>)
        ensures
            r == both_sexes(old(self).file_rows(), animal_name@),
            *final(self) == *old(self),
    ;

    /// How many individuals are keyed by `animal_name`.
    fn count_animal(&mut self, animal_name: &str) -> (r: Result<usize, StoreError>)
        ensures
            count_view(r) == counted(old(self).file_rows(), animal_name@, false),
            *final(self) == *old(self),
    ;

    /// Whether some row is keyed by `animal_name`; fails as the lookup of
    /// the first such row fails.
    fn animal_alive_in_file(&mut self, animal_name: &str) -> (r: Result<bool, StoreError>)
        ensures
            r == presence(find_alive(old(self).file_rows(), animal_name@)),
            *final(self) == *old(self),
    ;
}

impl<'a> AnimalAliveReader for CustomReader<'a> {
    open spec fn file_rows(&self) -> Seq<RowView> {
        self.stored()
    }

    fn read_animal_alive(&mut self, animal_name: &str) -> (r: Result<Option<AnimalAlive>, StoreError>) {
        let ghost all = self.rows.deep_view();
        let n = self.rows.len();
        let mut i: usize = 0;
        proof {
            assert(all.skip(0) =~= all);
        }
        while i < n
            invariant
                n == self.rows.len(),
                all == self.rows.deep_view(),
                i <= n,
                find_alive(all.skip(i as int), animal_name@) == find_alive(all, animal_name@),
            decreases n - i,
        {
            proof {
                assert(all.skip(i as int).skip(1) =~= all.skip(i + 1));
                assert(all.skip(i as int)[0] == all[i as int]);
            }
            let fields = self.rows[i].as_slice();
            proof {
                assert(fields.deep_view() =~= all[i as int]);
            }
            match AnimalAlive::from_csv(fields) {
                Err(e) => return Err(e),
                Ok(a) => {
                    if row_is_keyed(&self.rows[i], animal_name) {
                        return Ok(Some(a));
                    }
                },
            }
            i = i + 1;
        }
        proof {
            assert(all.skip(n as int) =~= Seq::<RowView>::empty());
        }
        Ok(None)
    }

    fn has_both_sexes(&mut self, animal_name: &str) -> (r: Result<bool, StoreError>) {
        let ghost all = self.rows.deep_view();
        let n = self.rows.len();
        let mut male_exists = false;
        let mut female_exists = false;
        let mut i: usize = 0;
        proof {
            assert(all.skip(0) =~= all);
        }
        while i < n
            invariant
                n == self.rows.len(),
                all == self.rows.deep_view(),
                i <= n,
                !(male_exists && female_exists),
                both_sexes_from(all.skip(i as int), animal_name@, male_exists, female_exists)
                    == both_sexes(all, animal_name@),
            decreases n - i,
        {
            proof {
                assert(all.skip(i as int).skip(1) =~= all.skip(i + 1));
                assert(all.skip(i as int)[0] == all[i as int]);
            }
            let fields = self.rows[i].as_slice();
            proof {
                assert(fields.deep_view() =~= all[i as int]);
            }
            match AnimalAlive::from_csv(fields) {
                Err(e) => return Err(e),
                Ok(a) => {
                    if row_is_keyed(&self.rows[i], animal_name) {
                        match a.sex {
                            Sex::Male => male_exists = true,
                            Sex::Female => female_exists = true,
                        }
                    }
                },
            }
            if male_exists && female_exists {
                return Ok(true);
            }
            i = i + 1;
        }
        proof {
            assert(all.skip(n as int) =~= Seq::<RowView>::empty());
        }
        Ok(false)
    }

    fn count_animal(&mut self, animal_name: &str) -> (r: Result<usize, StoreError>) {
        count_decoded(self.rows, animal_name, false)
    }

    fn animal_alive_in_file(&mut self, animal_name: &str) -> (r: Result<bool, StoreError>) {
        match self.read_animal_alive(animal_name) {
            Ok(Some(_)) => Ok(true),
            Ok(None) => Ok(false),
            Err(e) => Err(e),
        }
    }
}

impl CustomWriter {
    /// Appends the row of one individual.
    pub fn write_animal_alive(&mut self, animal: AnimalAlive)
        ensures
            final(self).table@.header == old(self).table@.header,
            final(self).table@.rows == old(self).table@.rows.push(encode_alive(animal@)),
    {
        let mut fields: Vec<String> = Vec::new();
        fields.push(animal.name());
        fields.push(animal.sex_str());
        proof {
            assert(fields.deep_view() =~= encode_alive(animal@));
        }
        self.write_row(fields);
    }
}

/// Removes every living individual of a species from the living-individuals file.
pub fn kill_all_animals_alive(animal_name: &str, alive: &mut CsvTable) -> (r: Result<(), StoreError>)
    ensures
        final(alive)@ == after_deletion(old(alive)@, animal_name@, true),
        r is Ok <==> key_column(old(alive)@.header) is Some,
        r is Err ==> r == Err::<(), StoreError>(StoreError::MissingNameColumn),
{
    delete_all_animals_for_path(animal_name, alive)
}

/// Removes one living individual of a species (the first stored) from the
/// living-individuals file.
pub fn kill_one_animal_alive(animal_name: &str, alive: &mut CsvTable) -> (r: Result<(), StoreError>)
    ensures
        final(alive)@ == after_deletion(old(alive)@, animal_name@, false),
        r is Ok <==> key_column(old(alive)@.header) is Some,
        r is Err ==> r == Err::<(), StoreError>(StoreError::MissingNameColumn),
{
    delete_one_animal_for_path(animal_name, alive)
}

} // verus!
