//! Files kept as objects of an S3 bucket, named by their content.

use vstd::prelude::*;

use crate::storage::{hash_using_std, std_content_key};

verus! {

/// Identifies a single object in the bucket.
pub struct S3StorageId {
    file_id: String,
}

impl S3StorageId {
    /// The object's key.
    pub closed spec fn file_id(&self) -> Seq<char> {
        self.file_id@
    }

    /// The id of the object that holds `binary_data`: its content key.
    pub fn for_data(binary_data: &[u8]) -> (r: Self)
        ensures
            r.file_id() == std_content_key(binary_data@),
    {
        S3StorageId { file_id: hash_data(binary_data) }
    }

    /// The object's key.
    pub fn get_file_id(&self) -> (r: String)
        ensures
            r@ == self.file_id(),
    {
        self.file_id.clone()
    }
}

/// The key under which `data` is kept in the bucket.
pub fn hash_data(data: &[u8]) -> (r: String)
    ensures
        r@ == std_content_key(data@),
{
    hash_using_std(data)
}

/// A failure reported by S3, with its description.
pub enum S3Error {
    S3Error(String),
}

impl S3Error {
    /// The text of the error, as it is displayed.
    pub fn message(&self) -> (r: String)
        ensures
            r@ == "Error from S3: "@ + (match self {
                S3Error::S3Error(m) => m@,
            }),
    {
        match self {
            S3Error::S3Error(msg) => {
                let mut text = String::new();
                text.append("Error from S3: ");
                text.append(msg.as_str());
                text
            },
        }
    }
}

/// Creates the S3 client for a bucket when the server starts.
pub struct S3StorageInitFairing {
    bucket_name: String,
}

impl S3StorageInitFairing {
    /// The bucket to connect to.
    pub closed spec fn bucket(&self) -> Seq<char> {
        self.bucket_name@
    }

    /// The bucket to connect to.
    pub fn bucket_name(&self) -> (r: &str)
        ensures
            r@ == self.bucket(),
    {
        self.bucket_name.as_str()
    }
}

/// The fairing that connects to `bucket_name` at start-up.
pub fn bucket_fairing(bucket_name: String) -> (r: S3StorageInitFairing)
    ensures
        r.bucket() == bucket_name@,
{
    S3StorageInitFairing { bucket_name }
}

} // verus!
