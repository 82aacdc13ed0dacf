use std::collections::hash_map::DefaultHasher;
use std::hash::{Hash, Hasher};

use apollo::storage::{
    hash_using_std, s3_get_outcome, stored_under, ContentHasher, FileStore, FileStoreFairing, FileStoreInitializer,
    MemoryBackend, MemoryBackendInitializer, S3GetError, S3StorageInitializer, StdContentHasher,
    StorageBackend,
};

fn expected_hash(data: &[u8]) -> String {
    let mut hasher = DefaultHasher::new();
    data.hash(&mut hasher);
    hasher.finish().to_string()
}

#[test]
fn hash_using_std_is_default_hasher_in_decimal() {
    for data in [&b""[..], &b"a"[..], &b"chart data"[..], &[0u8, 255, 7][..]] {
        assert_eq!(hash_using_std(data), expected_hash(data));
    }
}

#[test]
fn hash_keys_are_digit_strings() {
    let key = hash_using_std(b"some chart");
    assert!(!key.is_empty());
    assert!(key.chars().all(|c| c.is_ascii_digit()));
}

#[test]
fn hash_differs_for_different_content() {
    assert_ne!(hash_using_std(b"one"), hash_using_std(b"two"));
    assert_eq!(hash_using_std(b"one"), hash_using_std(b"one"));
}

#[test]
fn std_content_hasher_uses_hash_using_std() {
    assert_eq!(StdContentHasher.content_key(b"xyz"), hash_using_std(b"xyz"));
}

#[test]
fn memory_backend_read_after_write() {
    let mut backend = MemoryBackend::new();
    assert!(backend.get("k").unwrap().is_none());
    backend.store("k".to_string(), vec![1, 2, 3]).unwrap();
    assert_eq!(backend.get("k").unwrap(), Some(vec![1, 2, 3]));
    backend.store("k".to_string(), vec![9]).unwrap();
    assert_eq!(backend.get("k").unwrap(), Some(vec![9]));
}

#[test]
fn memory_backend_other_keys_unchanged() {
    let mut backend = MemoryBackend::new();
    backend.store("a".to_string(), vec![1]).unwrap();
    backend.store("b".to_string(), vec![2]).unwrap();
    assert_eq!(backend.get("a").unwrap(), Some(vec![1]));
    assert_eq!(backend.get("b").unwrap(), Some(vec![2]));
    assert_eq!(backend.get("c").unwrap(), None);
}

#[test]
fn file_store_retrieve_after_store() {
    let mut store = FileStore::new(MemoryBackend::new(), StdContentHasher);
    let key = store.store(b"chart bytes".to_vec()).unwrap();
    assert_eq!(key, hash_using_std(b"chart bytes"));
    assert_eq!(store.retrieve(&key).unwrap(), Some(b"chart bytes".to_vec()));
    assert_eq!(store.retrieve("missing").unwrap(), None);
}

#[test]
fn file_store_store_twice_same_key() {
    let mut store = MemoryBackendInitializer::new().create();
    let first = store.store(vec![5, 6, 7]).unwrap();
    let second = store.store(vec![5, 6, 7]).unwrap();
    assert_eq!(first, second);
    assert_eq!(store.retrieve(&first).unwrap(), Some(vec![5, 6, 7]));
}

#[test]
fn memory_initializer_starts_empty() {
    let store = MemoryBackendInitializer::new().create();
    assert_eq!(store.retrieve(&hash_using_std(b"")).unwrap(), None);
}

#[test]
fn s3_get_outcomes() {
    assert_eq!(s3_get_outcome(Ok(vec![1, 2])).unwrap(), Some(vec![1, 2]));
    assert_eq!(s3_get_outcome(Err(S3GetError::NoSuchKey)).unwrap(), None);
    let err = s3_get_outcome(Err(S3GetError::Other("timeout".to_string()))).unwrap_err();
    assert_eq!(err.message, "timeout");
}

#[test]
fn s3_initializer_keeps_bucket() {
    let init = S3StorageInitializer::from_bucket_name("charts".to_string());
    assert_eq!(init.bucket_name(), "charts");
    let fairing = FileStoreFairing::new(init);
    assert_eq!(fairing.init().bucket_name(), "charts");
}

#[test]
fn stored_under_hands_on_the_backend_outcome() {
    assert_eq!(stored_under("k".to_string(), Ok(())).unwrap(), "k");
    let err = stored_under("k".to_string(), Err(apollo::storage::StorageError { message: "full".to_string() }))
        .unwrap_err();
    assert_eq!(err.message, "full");
}
