use offchain_rpc::{
    check_call, clear_entry, read_entry, select_prefix, write_entry, Error, Offchain,
    UnsafeRpcError,
};
use sp_core::offchain::storage::InMemOffchainStorage;
use sp_core::offchain::{OffchainStorage, StorageKind};
use sp_core::Bytes;

const PERSISTENT: StorageKind = StorageKind::PERSISTENT;
const LOCAL: StorageKind = StorageKind::LOCAL;
const DENIED: Result<(), UnsafeRpcError> = Err(UnsafeRpcError);

fn service() -> Offchain<InMemOffchainStorage> {
    Offchain::new(InMemOffchainStorage::default())
}

fn b(v: &[u8]) -> Bytes {
    Bytes(v.to_vec())
}

#[test]
fn write_read_clear_scenario() {
    let api = service();
    assert_eq!(api.set_local_storage(Ok(()), PERSISTENT, b(b"k1"), b(&[0x01, 0x02])), Ok(()));
    assert_eq!(
        api.get_local_storage(Ok(()), PERSISTENT, b(b"k1")),
        Ok(Some(b(&[0x01, 0x02])))
    );
    assert_eq!(api.clear_local_storage(Ok(()), PERSISTENT, b(b"k1")), Ok(()));
    assert_eq!(api.get_local_storage(Ok(()), PERSISTENT, b(b"k1")), Ok(None));
    assert_eq!(
        api.get_local_storage(Ok(()), LOCAL, b(b"k1")),
        Err(Error::UnavailableStorageKind)
    );
}

#[test]
fn service_write_overwrites() {
    let api = service();
    api.set_local_storage(Ok(()), PERSISTENT, b(b"k"), b(b"A")).unwrap();
    api.set_local_storage(Ok(()), PERSISTENT, b(b"k"), b(b"B")).unwrap();
    assert_eq!(api.get_local_storage(Ok(()), PERSISTENT, b(b"k")), Ok(Some(b(b"B"))));
}

#[test]
fn service_local_kind_rejected() {
    let api = service();
    assert_eq!(
        api.set_local_storage(Ok(()), LOCAL, b(b"k"), b(b"v")),
        Err(Error::UnavailableStorageKind)
    );
    assert_eq!(api.clear_local_storage(Ok(()), LOCAL, b(b"k")), Err(Error::UnavailableStorageKind));
    assert_eq!(api.get_local_storage(Ok(()), PERSISTENT, b(b"k")), Ok(None));
}

#[test]
fn service_denied_call_changes_nothing() {
    let api = service();
    api.set_local_storage(Ok(()), PERSISTENT, b(b"k"), b(b"old")).unwrap();
    for kind in [PERSISTENT, LOCAL] {
        assert_eq!(
            api.set_local_storage(DENIED, kind, b(b"k"), b(b"new")),
            Err(Error::UnsafeRpcCalled(UnsafeRpcError))
        );
        assert_eq!(
            api.clear_local_storage(DENIED, kind, b(b"k")),
            Err(Error::UnsafeRpcCalled(UnsafeRpcError))
        );
        assert_eq!(
            api.get_local_storage(DENIED, kind, b(b"k")),
            Err(Error::UnsafeRpcCalled(UnsafeRpcError))
        );
    }
    assert_eq!(api.get_local_storage(Ok(()), PERSISTENT, b(b"k")), Ok(Some(b(b"old"))));
}

#[test]
fn write_then_read_returns_value() {
    let mut store = InMemOffchainStorage::default();
    assert_eq!(write_entry(&mut store, Ok(()), PERSISTENT, b"key", b"value"), Ok(()));
    assert_eq!(read_entry(&store, Ok(()), PERSISTENT, b"key"), Ok(Some(b"value".to_vec())));
    assert_eq!(read_entry(&store, Ok(()), PERSISTENT, b"other"), Ok(None));
}

#[test]
fn write_of_empty_key_and_value() {
    let mut store = InMemOffchainStorage::default();
    assert_eq!(write_entry(&mut store, Ok(()), PERSISTENT, b"", b""), Ok(()));
    assert_eq!(read_entry(&store, Ok(()), PERSISTENT, b""), Ok(Some(Vec::new())));
}

#[test]
fn clear_then_read_is_absent() {
    let mut store = InMemOffchainStorage::default();
    assert_eq!(clear_entry(&mut store, Ok(()), PERSISTENT, b"never"), Ok(()));
    assert_eq!(read_entry(&store, Ok(()), PERSISTENT, b"never"), Ok(None));
    write_entry(&mut store, Ok(()), PERSISTENT, b"key", b"v").unwrap();
    assert_eq!(clear_entry(&mut store, Ok(()), PERSISTENT, b"key"), Ok(()));
    assert_eq!(read_entry(&store, Ok(()), PERSISTENT, b"key"), Ok(None));
}

#[test]
fn local_kind_is_unavailable() {
    let mut store = InMemOffchainStorage::default();
    assert_eq!(
        write_entry(&mut store, Ok(()), LOCAL, b"key", b"v"),
        Err(Error::UnavailableStorageKind)
    );
    assert_eq!(clear_entry(&mut store, Ok(()), LOCAL, b"key"), Err(Error::UnavailableStorageKind));
    assert_eq!(read_entry(&store, Ok(()), LOCAL, b"key"), Err(Error::UnavailableStorageKind));
    assert_eq!(store.iter().count(), 0);
}

#[test]
fn denied_call_leaves_store_unchanged() {
    let mut store = InMemOffchainStorage::default();
    write_entry(&mut store, Ok(()), PERSISTENT, b"key", b"old").unwrap();
    for kind in [PERSISTENT, LOCAL] {
        assert_eq!(
            write_entry(&mut store, DENIED, kind, b"key", b"new"),
            Err(Error::UnsafeRpcCalled(UnsafeRpcError))
        );
        assert_eq!(
            clear_entry(&mut store, DENIED, kind, b"key"),
            Err(Error::UnsafeRpcCalled(UnsafeRpcError))
        );
        assert_eq!(
            read_entry(&store, DENIED, kind, b"key"),
            Err(Error::UnsafeRpcCalled(UnsafeRpcError))
        );
    }
    assert_eq!(read_entry(&store, Ok(()), PERSISTENT, b"key"), Ok(Some(b"old".to_vec())));
}

#[test]
fn last_write_wins_in_either_order() {
    let mut ab = InMemOffchainStorage::default();
    write_entry(&mut ab, Ok(()), PERSISTENT, b"k", b"A").unwrap();
    write_entry(&mut ab, Ok(()), PERSISTENT, b"k", b"B").unwrap();
    assert_eq!(read_entry(&ab, Ok(()), PERSISTENT, b"k"), Ok(Some(b"B".to_vec())));
    let mut ba = InMemOffchainStorage::default();
    write_entry(&mut ba, Ok(()), PERSISTENT, b"k", b"B").unwrap();
    write_entry(&mut ba, Ok(()), PERSISTENT, b"k", b"A").unwrap();
    assert_eq!(read_entry(&ba, Ok(()), PERSISTENT, b"k"), Ok(Some(b"A".to_vec())));
}

#[test]
fn entries_are_kept_under_storage_prefix() {
    let mut store = InMemOffchainStorage::default();
    write_entry(&mut store, Ok(()), PERSISTENT, b"k1", &[7]).unwrap();
    let all: Vec<(Vec<u8>, Vec<u8>)> =
        store.iter().map(|(k, v)| (k.clone(), v.clone())).collect();
    assert_eq!(all, vec![(b"storagek1".to_vec(), vec![7u8])]);
}

#[test]
fn safety_is_checked_before_kind() {
    assert_eq!(check_call(DENIED, LOCAL), Err(Error::UnsafeRpcCalled(UnsafeRpcError)));
    assert_eq!(check_call(Ok(()), LOCAL), Err(Error::UnavailableStorageKind));
    assert_eq!(check_call(Ok(()), PERSISTENT), Ok(&b"storage"[..]));
}

#[test]
fn prefix_selection() {
    assert_eq!(select_prefix(PERSISTENT), Ok(&b"storage"[..]));
    assert_eq!(select_prefix(LOCAL), Err(Error::UnavailableStorageKind));
}

#[test]
fn error_messages_and_conversion() {
    assert_eq!(Error::from(UnsafeRpcError), Error::UnsafeRpcCalled(UnsafeRpcError));
    assert_eq!(
        Error::UnavailableStorageKind.message(),
        "This storage kind is not available yet."
    );
    assert_eq!(
        Error::UnsafeRpcCalled(UnsafeRpcError).message(),
        "RPC call is unsafe to be called externally"
    );
}

#[test]
fn other_namespaces_are_left_alone() {
    let mut store = InMemOffchainStorage::default();
    OffchainStorage::set(&mut store, b"other", b"k", b"kept");
    write_entry(&mut store, Ok(()), PERSISTENT, b"k", b"v").unwrap();
    clear_entry(&mut store, Ok(()), PERSISTENT, b"k").unwrap();
    assert_eq!(OffchainStorage::get(&store, b"other", b"k"), Some(b"kept".to_vec()));
    assert_eq!(read_entry(&store, Ok(()), PERSISTENT, b"k"), Ok(None));
}

#[test]
fn service_starts_from_given_backend() {
    let mut store = InMemOffchainStorage::default();
    write_entry(&mut store, Ok(()), PERSISTENT, b"pre", b"filled").unwrap();
    let api = Offchain::new(store);
    assert_eq!(api.get_local_storage(Ok(()), PERSISTENT, b(b"pre")), Ok(Some(b(b"filled"))));
    assert_eq!(api.get_local_storage(Ok(()), PERSISTENT, b(b"absent")), Ok(None));
}
