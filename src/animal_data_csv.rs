//! Species data as stored rows `[name, class, predators, preys]`, and the
//! lookup that a scan of the species file answers.
use vstd::prelude::*;
use crate::animal_structs::{
    class_of_tag, class_tag, lemma_class_tag_inverse, AnimalData, AnimalDataView, Class,
};
use crate::custom_writers_and_readers::{presence, row_is_keyed, row_matches, CustomReader, CustomWriter, RowView};
use crate::animal_csv_shared_functions::{after_deletion, delete_one_animal_for_path, key_column};
use crate::custom_writers_and_readers::CsvTable;
use crate::store_error::StoreError;
use crate::text::{decode_list, decode_list_field, join_hyphen, lemma_decode_join, str_eq, valid_list};

verus! {

/// The row that stores a species.
pub open spec fn encode_data(d: AnimalDataView) -> RowView {
    seq![d.name, class_tag(d.class), join_hyphen(d.predators), join_hyphen(d.preys)]
}

/// The species that a row stores, or why it stores none.
pub open spec fn decode_data(row: RowView) -> Result<AnimalDataView, StoreError> {
    if row.len() < 4 {
        Err(StoreError::InvalidField)
    } else {
        match class_of_tag(row[1]) {
            Some(class) => Ok(
                AnimalDataView {
                    name: row[0],
                    class,
                    predators: decode_list(row[2]),
                    preys: decode_list(row[3]),
                },
            ),
            None => Err(StoreError::InvalidField),
        }
    }
}

/// Species data that its row keeps exactly: every listed name is non-empty
/// and free of the list separator.
pub open spec fn valid_data(d: AnimalDataView) -> bool {
    valid_list(d.predators) && valid_list(d.preys)
}

/// Scanning from the first row: the first row keyed by `name`, decoded, or
/// the error of the first row before it (or it) that does not decode.
pub open spec fn find_data(rows: Seq<RowView>, name: Seq<char>) -> Result<
    Option<AnimalDataView>,
    StoreError,
>
    decreases rows.len(),
{
    if rows.len() == 0 {
        Ok(None)
    } else {
        match decode_data(rows[0]) {
            Err(e) => Err(e),
            Ok(d) => if row_matches(rows[0], name) {
                Ok(Some(d))
            } else {
                find_data(rows.skip(1), name)
            },
        }
    }
}

pub open spec fn data_lookup_view(r: Result<Option<AnimalData>, StoreError>) -> Result<
    Option<AnimalDataView>,
    StoreError,
> {
    match r {
        Ok(Some(d)) => Ok(Some(d@)),
        Ok(None) => Ok(None),
        Err(e) => Err(e),
    }
}

/// Decoding the stored row of valid species data gives the data back.
pub proof fn lemma_data_round_trip(d: AnimalDataView)
    requires
        valid_data(d),
    ensures
        decode_data(encode_data(d)) == Ok::<AnimalDataView, StoreError>(d),
{
    lemma_class_tag_inverse(d.class);
    lemma_decode_join(d.predators);
    lemma_decode_join(d.preys);
}

/// The class whose stored word is `word`, if any.
pub fn class_from_word(word: &str) -> (r: Option<Class>)
    ensures
        r == class_of_tag(word@),
{
    proof {
        reveal_strlit("mammal");
        reveal_strlit("bird");
        reveal_strlit("amphibian");
        reveal_strlit("arthropod");
        reveal_strlit("fish");
        reveal_strlit("reptile");
        assert("mammal"@ =~= class_tag(Class::Mammal));
        assert("bird"@ =~= class_tag(Class::Bird));
        assert("amphibian"@ =~= class_tag(Class::Amphibian));
        assert("arthropod"@ =~= class_tag(Class::Arthropod));
        assert("fish"@ =~= class_tag(Class::Fish));
        assert("reptile"@ =~= class_tag(Class::Reptile));
    }
    if str_eq(word, "mammal") {
        Some(Class::Mammal)
    } else if str_eq(word, "bird") {
        Some(Class::Bird)
    } else if str_eq(word, "amphibian") {
        Some(Class::Amphibian)
    } else if str_eq(word, "arthropod") {
        Some(Class::Arthropod)
    } else if str_eq(word, "fish") {
        Some(Class::Fish)
    } else if str_eq(word, "reptile") {
        Some(Class::Reptile)
    } else {
        None
    }
}

impl AnimalData {
    /// The stored row of this species.
    pub fn to_csv(&self) -> (r: [String; 4])
        ensures
            r.deep_view() == encode_data(self@),
    {
        let r = [self.name(), self.class_str(), self.predators_str(), self.preys_str()];
        proof {
            assert(r.deep_view() =~= encode_data(self@));
        }
        r
    }

    /// The stored row of this species (same layout as `to_csv`).
    pub fn to_data_csv(&self) -> (r: [String; 4])
        ensures
            r.deep_view() == encode_data(self@),
    {
        self.to_csv()
    }

    /// The species stored in a row.
    pub fn from_csv(fields: &[String]) -> (r: Result<AnimalData, StoreError>)
        ensures
            match r {
                Ok(d) => decode_data(fields.deep_view()) == Ok::<AnimalDataView, StoreError>(d@),
                Err(e) => decode_data(fields.deep_view()) == Err::<AnimalDataView, StoreError>(e),
            },
    {
        if fields.len() < 4 {
            return Err(StoreError::InvalidField);
        }
        match class_from_word(fields[1].as_str()) {
            Some(class) => {
                let predators = decode_list_field(fields[2].as_str());
                let preys = decode_list_field(fields[3].as_str());
                Ok(AnimalData::new(fields[0].clone(), class, predators, preys))
            },
            None => Err(StoreError::InvalidField),
        }
    }
}

/// Lookups over the species file. Every lookup scans the file from its
/// first row and leaves the reader as it found it.
pub trait AnimalDataReader: Sized {
    /// Every row of the file, header excluded.
    spec fn file_rows(&self) -> Seq<RowView>;

    /// The first species keyed by `animal_name`.
    fn read_animal_data(&mut self, animal_name: &str) -> (r: Result<Option<AnimalData>, StoreError>)
        ensures
            data_lookup_view(r) == find_data(old(self).file_rows(), animal_name@),
            *final(self) == *old(self),
    ;

    /// Whether some row is keyed by `animal_name`; fails as the lookup of
    /// the first such row fails.
    fn animal_data_in_file(&mut self, animal_name: &str) -> (r: Result<bool, StoreError>)
        ensures
            r == presence(find_data(old(self).file_rows(), animal_name@)),
            *final(self) == *old(self),
    ;
}

impl<'a> AnimalDataReader for CustomReader<'a> {
    open spec fn file_rows(&self) -> Seq<RowView> {
        self.stored()
    }

    fn read_animal_data(&mut self, animal_name: &str) -> (r: Result<Option<AnimalData>, StoreError>) {
        let ghost all = self.rows.deep_view();
        let n = self.rows.len();
        let mut i: usize = 0;
        proof {
            assert(all.skip(0) =~= all);
        }
        while i < n
            invariant
                n == self.rows.len(),
                all == self.rows.deep_view(),
                i <= n,
                find_data(all.skip(i as int), animal_name@) == find_data(all, animal_name@),
            decreases n - i,
        {
            proof {
                assert(all.skip(i as int).skip(1) =~= all.skip(i + 1));
                assert(all.skip(i as int)[0] == all[i as int]);
            }
            let fields = self.rows[i].as_slice();
            proof {
                assert(fields.deep_view() =~= all[i as int]);
            }
            match AnimalData::from_csv(fields) {
                Err(e) => return Err(e),
                Ok(d) => {
                    if row_is_keyed(&self.rows[i], animal_name) {
                        return Ok(Some(d));
                    }
                },
            }
            i = i + 1;
        }
        proof {
            assert(all.skip(n as int) =~= Seq::<RowView>::empty());
        }
        Ok(None)
    }

    fn animal_data_in_file(&mut self, animal_name: &str) -> (r: Result<bool, StoreError>) {
        match self.read_animal_data(animal_name) {
            Ok(Some(_)) => Ok(true),
            Ok(None) => Ok(false),
            Err(e) => Err(e),
        }
    }
}

impl CustomWriter {
    /// Appends the row of one species.
    pub fn write_animal_data(&mut self, animal: &AnimalData)
        ensures
            final(self).table@.header == old(self).table@.header,
            final(self).table@.rows == old(self).table@.rows.push(encode_data(animal@)),
    {
        let mut fields: Vec<String> = Vec::new();
        fields.push(animal.name());
        fields.push(animal.class_str());
        fields.push(animal.predators_str());
        fields.push(animal.preys_str());
        proof {
            assert(fields.deep_view() =~= encode_data(animal@));
        }
        self.write_row(fields);
    }
}

/// Removes the data row of a species from the species file.
pub fn delete_animal_data(animal_name: &str, data: &mut CsvTable) -> (r: Result<(), StoreError>)
    ensures
        final(data)@ == after_deletion(old(data)@, animal_name@, false),
        r is Ok <==> key_column(old(data)@.header) is Some,
        r is Err ==> r == Err::<(), StoreError>(StoreError::MissingNameColumn),
{
    delete_one_animal_for_path(animal_name, data)
}

} // verus!
