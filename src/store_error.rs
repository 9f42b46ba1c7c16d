//! Failures of the record store.
use vstd::prelude::*;

verus! {

/// Why a store operation failed.
#[derive(PartialEq, Eq, Debug, Clone, Copy, Structural)]
pub enum StoreError {
    /// The stored text could not be read or written as delimited records.
    Io,
    /// A class or sex column holds a word that names no class or sex, or is missing.
    InvalidField,
    /// The header row has no `name` column, so no row can be matched by key.
    MissingNameColumn,
}

} // verus!
