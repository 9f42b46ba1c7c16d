//! A small record store for an animal simulation: species data and living
//! individuals kept as rows of delimited text, with keyed lookup, counting,
//! and copy-skip-replace deletion.
pub mod animal_alive_csv;
pub mod animal_csv_shared_functions;
pub mod animal_data_csv;
pub mod animal_structs;
pub mod animals;
pub mod commands;
pub mod custom_string_methods;
pub mod csv_files_creator;
pub mod custom_writers_and_readers;
pub mod input_handler;
pub mod input_validators;
pub mod safe_rewrite;
pub mod store_error;
pub mod store_laws;
pub mod temp_file_handler;
pub mod text;

use vstd::prelude::*;

verus! {

/// Where the species data is stored.
pub const ANIMALS_DATA_FILE_PATH: &'static str = "animals_data.csv";

/// Where the living individuals are stored.
pub const ANIMALS_ALIVE_FILE_PATH: &'static str = "animals_alive.csv";

/// A scratch store for trying operations out.
pub const TEST_PATH: &'static str = "test_file.csv";

} // verus!
