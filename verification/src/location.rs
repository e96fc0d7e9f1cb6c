//! Where the collection is kept.

use std::path::PathBuf;
use vstd::prelude::*;

verus! {

/// `std::path::PathBuf`. Opaque here: a path is carried from the host and
/// back, as the host gave it.
#[verifier::external_type_specification]
#[verifier::external_body]
pub struct ExPathBuf(std::path::PathBuf);

/// The name of the file that holds the collection.
pub const DATA_FILE_NAME: &'static str = "contacts.json";

/// The one file of the store: `file_name` directly inside `dir`.
///
/// The directory is carried as the host gave it and never looked into; the host
/// joins the two when it opens the file.
#[derive(Debug, PartialEq, Eq)]
pub struct StorageLocation {
    pub dir: PathBuf,
    pub file_name: String,
}

/// The storage location for an application whose data directory is
/// `app_data_dir`.
pub fn data_file(app_data_dir: PathBuf) -> (location: StorageLocation)
    ensures
        location.dir == app_data_dir,
        location.file_name@ == DATA_FILE_NAME@,
{
    StorageLocation { dir: app_data_dir, file_name: DATA_FILE_NAME.to_owned() }
}

} // verus!
