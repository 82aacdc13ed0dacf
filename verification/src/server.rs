//! Start-up decisions of the server: the storage backend that the configuration
//! selects and the port that the `PORT` variable sets.

use vstd::prelude::*;

use crate::decimal::{parse_u16_decimal, parse_u16_spec};
use crate::storage::{FileStoreFairing, MemoryBackendInitializer, S3StorageInitializer};

verus! {

/// The answer of the root route.
pub fn index() -> (r: &'static str)
    ensures
        r@ == "Hello, world!"@,
{
    "Hello, world!"
}

/// The storage backends that the configuration can select.
#[derive(Debug, PartialEq, Eq, Structural, Clone, Copy)]
pub enum AvailableStorageBackend {
    LocalStorage,
    S3Storage,
}

impl Default for AvailableStorageBackend {
    fn default() -> (r: Self)
        ensures
            r == AvailableStorageBackend::LocalStorage,
    {
        AvailableStorageBackend::LocalStorage
    }
}

/// The server's configuration, read from the `APOLLO_` environment variables.
pub struct ServerConfig {
    pub bucket_name: Option<String>,
    pub storage_backend: AvailableStorageBackend,
}

impl Default for ServerConfig {
    fn default() -> (r: Self)
        ensures
            r.bucket_name is None,
            r.storage_backend == AvailableStorageBackend::LocalStorage,
    {
        ServerConfig { bucket_name: None, storage_backend: AvailableStorageBackend::LocalStorage }
    }
}

/// The fairing that sets up the file store that the configuration selects.
pub enum StorageFairing {
    Memory(FileStoreFairing<MemoryBackendInitializer>),
    S3(FileStoreFairing<S3StorageInitializer>),
}

/// A configuration that the server cannot start with.
#[derive(Debug, PartialEq, Eq, Structural, Clone, Copy)]
pub enum ConfigError {
    MissingBucketName,
}

impl ConfigError {
    /// The message that the server stops with.
    pub fn message(&self) -> (r: &'static str)
        ensures
            r@ == "S3 storage enabled, but no bucket name provided"@,
    {
        "S3 storage enabled, but no bucket name provided"
    }
}

/// Chooses the file store: in memory for local storage, in the named bucket for
/// S3; S3 without a bucket name is refused.
pub fn storage_fairing(config: ServerConfig) -> (r: Result<StorageFairing, ConfigError>)
    ensures
        config.storage_backend == AvailableStorageBackend::LocalStorage ==> r matches Ok(
            StorageFairing::Memory(_),
        ),
        config.storage_backend == AvailableStorageBackend::S3Storage ==> match config.bucket_name {
            Some(name) => r matches Ok(StorageFairing::S3(f)) && f.initializer().bucket() == name@,
            None => r == Err::<StorageFairing, ConfigError>(ConfigError::MissingBucketName),
        },
{
    match config.storage_backend {
        AvailableStorageBackend::LocalStorage => {
            Ok(StorageFairing::Memory(FileStoreFairing::new(MemoryBackendInitializer::new())))
        },
        AvailableStorageBackend::S3Storage => match config.bucket_name {
            Some(name) => Ok(
                StorageFairing::S3(FileStoreFairing::new(S3StorageInitializer::from_bucket_name(name))),
            ),
            None => Err(ConfigError::MissingBucketName),
        },
    }
}

/// The port that the `PORT` variable sets, if it is set to a valid port number.
pub fn port_override(port_var: Option<&str>) -> (r: Option<u16>)
    ensures
        r == match port_var {
            Some(p) => parse_u16_spec(p@),
            None => None,
        },
{
    match port_var {
        Some(port) => parse_u16_decimal(port),
        None => None,
    }
}

} // verus!
