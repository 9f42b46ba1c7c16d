//! Conversions from typed words to the store's vocabularies.
use vstd::prelude::*;
use crate::animal_data_csv::class_from_word;
use crate::animal_structs::{class_of_tag, Class};
use crate::store_error::StoreError;

verus! {

pub trait CustomStringMethods {
    /// The characters of the text.
    spec fn chars(&self) -> Seq<char>;

    /// The class that the text names.
    fn to_class(&self) -> (r: Result<Class, StoreError>)
        ensures
            match class_of_tag(self.chars()) {
                Some(c) => r == Ok::<Class, StoreError>(c),
                None => r == Err::<Class, StoreError>(StoreError::InvalidField),
            },
    ;
}

impl CustomStringMethods for String {
    open spec fn chars(&self) -> Seq<char> {
        self@
    }

    fn to_class(&self) -> (r: Result<Class, StoreError>) {
        match class_from_word(self.as_str()) {
            Some(c) => Ok(c),
            None => Err(StoreError::InvalidField),
        }
    }
}

} // verus!
