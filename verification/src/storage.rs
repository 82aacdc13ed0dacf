//! Content-addressed file storage: a key/value storage backend, the in-memory
//! backend, the hashers that name content, and the file store that puts the two
//! together, with the laws of reading back what was written.

use std::collections::hash_map::DefaultHasher;
use std::hash::{Hash, Hasher};
use vstd::hash_map::StringHashMap;
use vstd::prelude::*;
use vstd::std_specs::hash::DefaultHasherAdditionalSpecFns;

use crate::decimal::{all_digits, decimal, decimal_value, law_decimal_denotes_its_number, u64_to_decimal};

verus! {

/// A failure reported by a storage backend.
#[derive(Debug)]
pub struct StorageError {
    pub message: String,
}

/// What looking `key` up among `contents` finds.
pub open spec fn lookup(contents: Map<Seq<char>, Seq<u8>>, key: Seq<char>) -> Option<Seq<u8>> {
    if contents.contains_key(key) {
        Some(contents[key])
    } else {
        None
    }
}

/// The bytes held by an optional buffer.
pub open spec fn bytes_view(v: Option<Vec<u8>>) -> Option<Seq<u8>> {
    match v {
        Some(b) => Some(b@),
        None => None,
    }
}

/// A place where byte strings are kept under string keys.
pub trait StorageBackend {
    /// The key/value pairs that the backend holds.
    spec fn contents(&self) -> Map<Seq<char>, Seq<u8>>;

    /// Whether every call on the backend succeeds (no I/O that can fail).
    spec fn infallible(&self) -> bool;

    /// The failure that the last `store` reported; `None` after a successful one.
    spec fn store_failure(&self) -> Option<StorageError>;

    /// Keeps `value` under `key`, replacing what was kept there. A failed store
    /// leaves what is kept unchanged.
    fn store(&mut self, key: String, value: Vec<u8>) -> (r: Result<(), StorageError>)
        ensures
            r is Ok ==> final(self).contents() == old(self).contents().insert(key@, value@),
            r is Err ==> final(self).contents() == old(self).contents(),
            r is Ok ==> final(self).store_failure() is None,
            r matches Err(e) ==> final(self).store_failure() == Some(e),
            old(self).infallible() ==> r is Ok,
            final(self).infallible() == old(self).infallible(),
    ;

    /// Gives back what is kept under `key`, or `None` when nothing is.
    fn get(&self, key: &str) -> (r: Result<Option<Vec<u8>>, StorageError>)
        ensures
            r matches Ok(v) ==> bytes_view(v) == lookup(self.contents(), key@),
            self.infallible() ==> r is Ok,
    ;
}

/// A storage backend that keeps everything in memory.
pub struct MemoryBackend {
    data: StringHashMap<Vec<u8>>,
}

impl MemoryBackend {
    /// An empty in-memory backend.
    pub fn new() -> (r: Self)
        ensures
            r.contents() == Map::<Seq<char>, Seq<u8>>::empty(),
    {
        let r = MemoryBackend { data: StringHashMap::new() };
        assert(r.contents() =~= Map::<Seq<char>, Seq<u8>>::empty());
        r
    }
}

impl StorageBackend for MemoryBackend {
    closed spec fn contents(&self) -> Map<Seq<char>, Seq<u8>> {
        self.data@.map_values(|v: Vec<u8>| v@)
    }

    open spec fn infallible(&self) -> bool {
        true
    }

    open spec fn store_failure(&self) -> Option<StorageError> {
        None
    }

    fn store(&mut self, key: String, value: Vec<u8>) -> (r: Result<(), StorageError>) {
        let ghost k = key@;
        let ghost v = value@;
        self.data.insert(key, value);
        assert(self.contents() =~= old(self).contents().insert(k, v));
        Ok(())
    }

    fn get(&self, key: &str) -> (r: Result<Option<Vec<u8>>, StorageError>) {
        match self.data.get(key) {
            Some(v) => {
                let copy = v.clone();
                assert(copy@ =~= v@);
                Ok(Some(copy))
            },
            None => Ok(None),
        }
    }
}

/// The writes that `<[u8] as Hash>::hash` makes into a hasher for `data`.
pub uninterp spec fn slice_hash_writes(data: Seq<u8>) -> Seq<Seq<u8>>;

/// Feeds `data` into `hasher`.
/// Trusted: `<[u8] as Hash>::hash` makes the writes that `slice_hash_writes`
/// names, which depend on `data` alone, after those already made.
#[verifier::external_body]
fn hash_slice_into(data: &[u8], hasher: &mut DefaultHasher)
    ensures
        final(hasher)@ == old(hasher)@ + slice_hash_writes(data@),
{
    data.hash(hasher);
}

/// The key under which the standard hasher files `data`: the decimal text of
/// the 64-bit `DefaultHasher` hash of the byte slice.
pub open spec fn std_content_key(data: Seq<u8>) -> Seq<char> {
    decimal(DefaultHasher::spec_finish(slice_hash_writes(data)) as nat)
}

/// Hashes `data` with a fresh `DefaultHasher` and writes the hash in decimal.
pub fn hash_using_std(data: &[u8]) -> (key: String)
    ensures
        key@ == std_content_key(data@),
{
    let mut hasher = DefaultHasher::new();
    hash_slice_into(data, &mut hasher);
    assert(hasher@ =~= slice_hash_writes(data@));
    let h = hasher.finish();
    u64_to_decimal(h)
}

/// Every key that the standard hasher gives is a non-empty string of decimal
/// digits, so it names one file and never a path.
pub proof fn law_std_keys_are_digit_strings(data: Seq<u8>)
    ensures
        std_content_key(data).len() >= 1,
        all_digits(std_content_key(data)),
{
    law_decimal_denotes_its_number(DefaultHasher::spec_finish(slice_hash_writes(data)) as nat);
}

/// The key of content, read as a decimal number, is the `DefaultHasher` hash
/// of all of its bytes.
pub proof fn law_std_key_is_hash_of_all_bytes(data: Seq<u8>)
    ensures
        all_digits(std_content_key(data)),
        decimal_value(std_content_key(data)) == DefaultHasher::spec_finish(slice_hash_writes(data)),
{
    law_decimal_denotes_its_number(DefaultHasher::spec_finish(slice_hash_writes(data)) as nat);
}

/// Two contents whose whole-content hashes differ are filed under different keys.
pub proof fn law_std_keys_differ_when_hashes_differ(d1: Seq<u8>, d2: Seq<u8>)
    requires
        DefaultHasher::spec_finish(slice_hash_writes(d1)) != DefaultHasher::spec_finish(
            slice_hash_writes(d2),
        ),
    ensures
        std_content_key(d1) != std_content_key(d2),
{
    law_std_key_is_hash_of_all_bytes(d1);
    law_std_key_is_hash_of_all_bytes(d2);
}

/// With the standard hasher, storing `d1` and then `d2`, whose whole-content
/// hashes differ, leaves `d1` retrievable under its key.
pub proof fn law_std_store_keeps_earlier_file(contents: Map<Seq<char>, Seq<u8>>, d1: Seq<u8>, d2: Seq<u8>)
    requires
        DefaultHasher::spec_finish(slice_hash_writes(d1)) != DefaultHasher::spec_finish(
            slice_hash_writes(d2),
        ),
    ensures
        lookup(
            contents.insert(std_content_key(d1), d1).insert(std_content_key(d2), d2),
            std_content_key(d1),
        ) == Some(d1),
{
    law_std_keys_differ_when_hashes_differ(d1, d2);
}

/// A way of naming content by a key computed from its bytes.
pub trait ContentHasher {
    /// The key of `data`.
    spec fn spec_key(&self, data: Seq<u8>) -> Seq<char>;

    /// Computes the key of `data`.
    fn content_key(&self, data: &[u8]) -> (key: String)
        ensures
            key@ == self.spec_key(data@),
    ;
}

/// The hasher that the server uses: `hash_using_std`.
pub struct StdContentHasher;

impl ContentHasher for StdContentHasher {
    open spec fn spec_key(&self, data: Seq<u8>) -> Seq<char> {
        std_content_key(data)
    }

    fn content_key(&self, data: &[u8]) -> (key: String) {
        hash_using_std(data)
    }
}

/// A content-addressed file store: each file is kept under the key that the
/// hasher computes from its bytes.
pub struct FileStore<B, H> {
    backend: B,
    hasher: H,
}

impl<B: StorageBackend, H: ContentHasher> FileStore<B, H> {
    /// The files held, by key.
    pub closed spec fn contents(&self) -> Map<Seq<char>, Seq<u8>> {
        self.backend.contents()
    }

    /// Whether the backend never fails.
    pub closed spec fn infallible(&self) -> bool {
        self.backend.infallible()
    }

    /// The failure that the backend reported for the last store; `None` after a
    /// successful one.
    pub closed spec fn store_failure(&self) -> Option<StorageError> {
        self.backend.store_failure()
    }

    /// The hasher that names the files.
    pub closed spec fn hasher(&self) -> H {
        self.hasher
    }

    /// The key under which `data` is filed.
    pub open spec fn key_for(&self, data: Seq<u8>) -> Seq<char> {
        self.hasher().spec_key(data)
    }

    /// A file store over `backend` that names files with `hasher`.
    pub fn new(backend: B, hasher: H) -> (r: Self)
        ensures
            r.contents() == backend.contents(),
            r.infallible() == backend.infallible(),
            r.hasher() == hasher,
    {
        FileStore { backend, hasher }
    }

    /// Files `data` under its key with the backend and returns the key, or
    /// the backend's failure, which leaves the files as they were.
    pub fn store(&mut self, data: Vec<u8>) -> (r: Result<String, StorageError>)
        ensures
            final(self).hasher() == old(self).hasher(),
            final(self).infallible() == old(self).infallible(),
            old(self).infallible() ==> r is Ok,
            r matches Ok(key) ==> {
                &&& key@ == old(self).key_for(data@)
                &&& final(self).contents() == old(self).contents().insert(key@, data@)
                &&& final(self).store_failure() is None
            },
            r matches Err(e) ==> {
                &&& final(self).store_failure() == Some(e)
                &&& final(self).contents() == old(self).contents()
            },
    {
        let key = self.hasher.content_key(data.as_slice());
        let outcome = self.backend.store(key.clone(), data);
        stored_under(key, outcome)
    }

    /// The file kept under `key`, or `None` when there is none.
    pub fn retrieve(&self, key: &str) -> (r: Result<Option<Vec<u8>>, StorageError>)
        ensures
            r matches Ok(v) ==> bytes_view(v) == lookup(self.contents(), key@),
            self.infallible() ==> r is Ok,
    {
        self.backend.get(key)
    }
}

/// The result of filing content under `key`, given what the backend answered:
/// the key when the backend stored it, the backend's own failure otherwise.
pub fn stored_under(key: String, outcome: Result<(), StorageError>) -> (r: Result<String, StorageError>)
    ensures
        match outcome {
            Ok(_) => r == Ok::<String, StorageError>(key),
            Err(e) => r == Err::<String, StorageError>(e),
        },
{
    match outcome {
        Ok(_) => Ok(key),
        Err(error) => Err(error),
    }
}

/// Reading a key right after writing it gives back what was written.
pub proof fn law_read_after_write(contents: Map<Seq<char>, Seq<u8>>, key: Seq<char>, data: Seq<u8>)
    ensures
        lookup(contents.insert(key, data), key) == Some(data),
{
}

/// A file store gives back, under the key of the data, the data that it was
/// last given to store: after a successful `store(data)` (whose contract
/// relates `before` and `after` so), `retrieve` of the returned key finds `data`.
pub proof fn law_retrieve_after_store<B: StorageBackend, H: ContentHasher>(
    before: FileStore<B, H>,
    after: FileStore<B, H>,
    data: Seq<u8>,
)
    requires
        after.contents() == before.contents().insert(before.key_for(data), data),
    ensures
        lookup(after.contents(), before.key_for(data)) == Some(data),
{
}

/// Writing one key leaves what every other key reads unchanged.
pub proof fn law_write_leaves_other_keys(
    contents: Map<Seq<char>, Seq<u8>>,
    key: Seq<char>,
    data: Seq<u8>,
    other: Seq<char>,
)
    requires
        other != key,
    ensures
        lookup(contents.insert(key, data), other) == lookup(contents, other),
{
}

/// Storing the same file twice leaves the store as storing it once does, and
/// both times under the same key: the key depends on the content alone.
pub proof fn law_store_twice_is_store_once<B: StorageBackend, H: ContentHasher>(
    store: FileStore<B, H>,
    data: Seq<u8>,
)
    ensures
        ({
            let once = store.contents().insert(store.key_for(data), data);
            &&& once.insert(store.key_for(data), data) == once
        }),
{
    let once = store.contents().insert(store.key_for(data), data);
    assert(once.insert(store.key_for(data), data) =~= once);
}

/// Builds a file store when the server starts.
pub trait FileStoreInitializer {
    type Backend: StorageBackend;

    type Hasher: ContentHasher;

    /// The file store to serve from.
    fn create(&self) -> FileStore<Self::Backend, Self::Hasher>;
}

/// Builds an empty in-memory file store.
pub struct MemoryBackendInitializer {}

impl MemoryBackendInitializer {
    pub fn new() -> (r: Self) {
        MemoryBackendInitializer {  }
    }
}

impl FileStoreInitializer for MemoryBackendInitializer {
    type Backend = MemoryBackend;

    type Hasher = StdContentHasher;

    fn create(&self) -> (r: FileStore<MemoryBackend, StdContentHasher>)
        ensures
            r.contents() == Map::<Seq<char>, Seq<u8>>::empty(),
            r.infallible(),
            r.hasher() == StdContentHasher,
    {
        FileStore::new(MemoryBackend::new(), StdContentHasher)
    }
}

/// How fetching an object from an S3 bucket failed.
pub enum S3GetError {
    /// The bucket has no object under the key.
    NoSuchKey,
    /// Any other failure, with its description.
    Other(String),
}

/// What an S3-backed store's `get` gives for the outcome of fetching the
/// object: its bytes; nothing when the bucket has no such object; the failure
/// otherwise.
pub fn s3_get_outcome(fetched: Result<Vec<u8>, S3GetError>) -> (r: Result<Option<Vec<u8>>, StorageError>)
    ensures
        match fetched {
            Ok(bytes) => r == Ok::<Option<Vec<u8>>, StorageError>(Some(bytes)),
            Err(S3GetError::NoSuchKey) => r == Ok::<Option<Vec<u8>>, StorageError>(None),
            Err(S3GetError::Other(m)) => r matches Err(e) && e.message == m,
        },
{
    match fetched {
        Ok(bytes) => Ok(Some(bytes)),
        Err(S3GetError::NoSuchKey) => Ok(None),
        Err(S3GetError::Other(message)) => Err(StorageError { message }),
    }
}

/// Names the S3 bucket in which an S3-backed file store keeps its files.
pub struct S3StorageInitializer {
    bucket_name: String,
}

impl S3StorageInitializer {
    /// The bucket named by this initializer.
    pub closed spec fn bucket(&self) -> Seq<char> {
        self.bucket_name@
    }

    pub fn from_bucket_name(bucket_name: String) -> (r: Self)
        ensures
            r.bucket() == bucket_name@,
    {
        S3StorageInitializer { bucket_name }
    }

    pub fn bucket_name(&self) -> (r: &str)
        ensures
            r@ == self.bucket(),
    {
        self.bucket_name.as_str()
    }
}

/// Creates the file store with its initializer when the server starts.
pub struct FileStoreFairing<I> {
    init: I,
}

impl<I> FileStoreFairing<I> {
    /// The initializer that this fairing runs.
    pub closed spec fn initializer(&self) -> I {
        self.init
    }

    pub fn new(init: I) -> (r: Self)
        ensures
            r.initializer() == init,
    {
        FileStoreFairing { init }
    }

    pub fn init(&self) -> (r: &I)
        ensures
            *r == self.initializer(),
    {
        &self.init
    }
}

} // verus!
