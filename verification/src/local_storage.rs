//! Files kept in a directory on the local disk, named by their content.

use std::path::PathBuf;
use vstd::prelude::*;

use crate::storage::{hash_using_std, std_content_key};

verus! {

/// A directory path of the standard library, carried as it is.
#[verifier::external_type_specification]
#[verifier::external_body]
pub struct ExPathBuf(PathBuf);

/// Identifies a single file in the local storage pool.
pub struct LocalStorageId {
    file_id: String,
}

impl LocalStorageId {
    /// The name of the file within the pool.
    pub closed spec fn file_id(&self) -> Seq<char> {
        self.file_id@
    }

    /// The URI under which the file is served.
    pub fn get_file_uri(&self) -> (r: String)
        ensures
            r@ == "file.store/"@ + self.file_id(),
    {
        let mut uri = String::new();
        uri.append("file.store/");
        uri.append(self.file_id.as_str());
        uri
    }

    /// The name of the file within the pool.
    pub fn to_string(&self) -> (r: String)
        ensures
            r@ == self.file_id(),
    {
        self.file_id.clone()
    }
}

impl From<String> for LocalStorageId {
    fn from(file_id: String) -> (r: Self) {
        LocalStorageId { file_id }
    }
}

/// What `LocalStorageId::from` gives: the id of the file so named.
pub proof fn law_local_id_from_name(file_id: String)
    ensures
        <LocalStorageId as vstd::std_specs::convert::FromSpec<String>>::from_spec(file_id).file_id() == file_id@,
{
}

impl vstd::std_specs::convert::FromSpecImpl<String> for LocalStorageId {
    open spec fn obeys_from_spec() -> bool {
        true
    }

    closed spec fn from_spec(file_id: String) -> Self {
        LocalStorageId { file_id }
    }
}

/// The name under which `data` is kept in the pool.
pub fn hash_data(data: &[u8]) -> (r: String)
    ensures
        r@ == std_content_key(data@),
{
    hash_using_std(data)
}

/// A pool of files in one directory.
pub struct LocalStorage {
    storage_location: PathBuf,
}

impl LocalStorage {
    /// The directory that holds the files.
    pub closed spec fn location(&self) -> PathBuf {
        self.storage_location
    }

    pub fn new(storage_location: PathBuf) -> (r: Self)
        ensures
            r.location() == storage_location,
    {
        LocalStorage { storage_location }
    }

    /// The directory that holds the files.
    pub fn storage_location(&self) -> (r: &PathBuf)
        ensures
            *r == self.location(),
    {
        &self.storage_location
    }

    /// The id under which `binary_data` is stored: its content key.
    pub fn id_for(&self, binary_data: &[u8]) -> (r: LocalStorageId)
        ensures
            r.file_id() == std_content_key(binary_data@),
    {
        LocalStorageId { file_id: hash_data(binary_data) }
    }
}

} // verus!
