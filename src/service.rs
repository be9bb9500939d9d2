use vstd::prelude::*;

use crate::error::{Error, UnsafeRpcError};
use crate::kind::{persistent_prefix, prefix_of, select_prefix};
use crate::laws::lemma_calls_keep_other_namespaces;
use crate::store::{db_key, OffchainStore};
use vstd::rwlock::RwLock;
use sp_core::offchain::StorageKind;
use sp_core::Bytes;
use std::sync::Arc;

verus! {

#[verifier::external_type_specification]
pub struct ExBytes(sp_core::Bytes);

/// How a call with safety verdict `safety` on storage `kind` is decided before
/// any storage access: the safety check comes first, then the kind is checked; on
/// success the result is the prefix to work under.
pub open spec fn call_prefix(safety: Result<(), UnsafeRpcError>, kind: StorageKind) -> Result<
    Seq<u8>,
    Error,
> {
    match safety {
        Err(e) => Err(Error::UnsafeRpcCalled(e)),
        Ok(()) => prefix_of(kind),
    }
}

/// The result of a write or clear call with safety verdict `safety` on `kind`.
pub open spec fn call_status(safety: Result<(), UnsafeRpcError>, kind: StorageKind) -> Result<
    (),
    Error,
> {
    match call_prefix(safety, kind) {
        Ok(_) => Ok(()),
        Err(e) => Err(e),
    }
}

/// The entries after a write call of `value` under `key`.
pub open spec fn entries_after_write(
    m: Map<Seq<u8>, Seq<u8>>,
    safety: Result<(), UnsafeRpcError>,
    kind: StorageKind,
    key: Seq<u8>,
    value: Seq<u8>,
) -> Map<Seq<u8>, Seq<u8>> {
    match call_prefix(safety, kind) {
        Ok(p) => m.insert(db_key(p, key), value),
        Err(_) => m,
    }
}

/// The entries after a clear call of `key`.
pub open spec fn entries_after_clear(
    m: Map<Seq<u8>, Seq<u8>>,
    safety: Result<(), UnsafeRpcError>,
    kind: StorageKind,
    key: Seq<u8>,
) -> Map<Seq<u8>, Seq<u8>> {
    match call_prefix(safety, kind) {
        Ok(p) => m.remove(db_key(p, key)),
        Err(_) => m,
    }
}

/// What a read call of `key` returns on entries `m`.
pub open spec fn read_result(
    m: Map<Seq<u8>, Seq<u8>>,
    safety: Result<(), UnsafeRpcError>,
    kind: StorageKind,
    key: Seq<u8>,
) -> Result<Option<Seq<u8>>, Error> {
    match call_prefix(safety, kind) {
        Ok(p) => if m.contains_key(db_key(p, key)) {
            Ok(Some(m[db_key(p, key)]))
        } else {
            Ok(None)
        },
        Err(e) => Err(e),
    }
}

/// The view of a read result, with each value as its bytes.
pub open spec fn read_view(r: Result<Option<Vec<u8>>, Error>) -> Result<Option<Seq<u8>>, Error> {
    match r {
        Ok(Some(v)) => Ok(Some(v@)),
        Ok(None) => Ok(None),
        Err(e) => Err(e),
    }
}

/// Runs the checks that precede every storage access: the safety check's
/// verdict first, then the storage kind. Returns the prefix to work under.
pub fn check_call(safety: Result<(), UnsafeRpcError>, kind: StorageKind) -> (r: Result<
    &'static [u8],
    Error,
>)
    ensures
        match r {
            Ok(p) => call_prefix(safety, kind) == Ok::<Seq<u8>, Error>(p@),
            Err(e) => call_prefix(safety, kind) == Err::<Seq<u8>, Error>(e),
        },
{
    match safety {
        Err(e) => Err(Error::from(e)),
        Ok(()) => select_prefix(kind),
    }
}

/// Stores `value` under `key` in `store`, if the safety check allows it and `kind` is served.
pub fn write_entry<T: OffchainStore>(
    store: &mut T,
    safety: Result<(), UnsafeRpcError>,
    kind: StorageKind,
    key: &[u8],
    value: &[u8],
) -> (r: Result<(), Error>)
    ensures
        r == call_status(safety, kind),
        final(store).entries() == entries_after_write(
            old(store).entries(),
            safety,
            kind,
            key@,
            value@,
        ),
{
    match check_call(safety, kind) {
        Err(e) => Err(e),
        Ok(prefix) => {
            store.set(prefix, key, value);
            Ok(())
        },
    }
}

/// Removes the value under `key` from `store`, if the safety check allows it and `kind` is served.
pub fn clear_entry<T: OffchainStore>(
    store: &mut T,
    safety: Result<(), UnsafeRpcError>,
    kind: StorageKind,
    key: &[u8],
) -> (r: Result<(), Error>)
    ensures
        r == call_status(safety, kind),
        final(store).entries() == entries_after_clear(old(store).entries(), safety, kind, key@),
{
    match check_call(safety, kind) {
        Err(e) => Err(e),
        Ok(prefix) => {
            store.remove(prefix, key);
            Ok(())
        },
    }
}

/// Reads the value under `key` from `store`, if the safety check allows it and `kind` is served.
pub fn read_entry<T: OffchainStore>(
    store: &T,
    safety: Result<(), UnsafeRpcError>,
    kind: StorageKind,
    key: &[u8],
) -> (r: Result<Option<Vec<u8>>, Error>)
    ensures
        read_view(r) == read_result(store.entries(), safety, kind, key@),
{
    match check_call(safety, kind) {
        Err(e) => Err(e),
        Ok(prefix) => Ok(store.get(prefix, key)),
    }
}

/// Whether the database key `k` lies in the persistent namespace.
pub open spec fn starts_with_prefix(k: Seq<u8>) -> bool {
    k.len() >= persistent_prefix().len() && k.subrange(0, persistent_prefix().len() as int)
        == persistent_prefix()
}

/// `m` and `i` hold the same entries under every database key outside the
/// persistent namespace.
pub open spec fn agrees_outside_prefix(m: Map<Seq<u8>, Seq<u8>>, i: Map<Seq<u8>, Seq<u8>>) -> bool {
    forall|k: Seq<u8>|
        !starts_with_prefix(k) ==> (#[trigger] m.contains_key(k) == #[trigger] i.contains_key(k)
            && (m.contains_key(k) ==> m[k] == i[k]))
}

/// The offchain storage service: one backend shared by all calls, behind a
/// reader-writer lock. Reads take the lock shared, writes and clears take it
/// exclusively; a call that the checks reject never takes it. Entries outside
/// the persistent namespace stay as they were when the service was created.
#[verifier::reject_recursive_types(T)]
pub struct Offchain<T: OffchainStore> {
    storage: Arc<RwLock<T, spec_fn(T) -> bool>>,
    initial: Ghost<Map<Seq<u8>, Seq<u8>>>,
}

impl<T: OffchainStore> Offchain<T> {
    /// The lock admits exactly the backend states that agree with the initial
    /// entries outside the persistent namespace.
    #[verifier::type_invariant]
    spec fn lock_guards_other_namespaces(&self) -> bool {
        forall|s: T| #[trigger]
            (*self.storage).inv(s) == agrees_outside_prefix(s.entries(), self.initial@)
    }

    /// The entries the backend held when the service was created.
    pub closed spec fn initial_entries(&self) -> Map<Seq<u8>, Seq<u8>> {
        self.initial@
    }

    /// Creates the service around an initialized backend, which it takes as it is.
    pub fn new(storage: T) -> (r: Self)
        ensures
            r.initial_entries() == storage.entries(),
    {
        let ghost init = storage.entries();
        let lock = RwLock::new(storage, Ghost(|s: T| agrees_outside_prefix(s.entries(), init)));
        Offchain { storage: Arc::new(lock), initial: Ghost(init) }
    }

    /// Stores `value` under `key`. Fails with the safety check's error when `safety` is a
    /// denial, else with `UnavailableStorageKind` unless `kind` is persistent.
    pub fn set_local_storage(
        &self,
        safety: Result<(), UnsafeRpcError>,
        kind: StorageKind,
        key: Bytes,
        value: Bytes,
    ) -> (r: Result<(), Error>)
        ensures
            r == call_status(safety, kind),
    {
        match check_call(safety, kind) {
            Err(e) => Err(e),
            Ok(_) => {
                proof {
                    use_type_invariant(self);
                }
                let (mut store, handle) = self.storage.acquire_write();
                let ghost before = store.entries();
                let r = write_entry(&mut store, safety, kind, key.0.as_slice(), value.0.as_slice());
                proof {
                    lemma_calls_keep_other_namespaces(
                        before,
                        self.initial@,
                        safety,
                        kind,
                        key.0@,
                        value.0@,
                    );
                }
                handle.release_write(store);
                r
            },
        }
    }

    /// Removes the value under `key`, with the same checks as `set_local_storage`.
    pub fn clear_local_storage(
        &self,
        safety: Result<(), UnsafeRpcError>,
        kind: StorageKind,
        key: Bytes,
    ) -> (r: Result<(), Error>)
        ensures
            r == call_status(safety, kind),
    {
        match check_call(safety, kind) {
            Err(e) => Err(e),
            Ok(_) => {
                proof {
                    use_type_invariant(self);
                }
                let (mut store, handle) = self.storage.acquire_write();
                let ghost before = store.entries();
                let r = clear_entry(&mut store, safety, kind, key.0.as_slice());
                proof {
                    lemma_calls_keep_other_namespaces(
                        before,
                        self.initial@,
                        safety,
                        kind,
                        key.0@,
                        Seq::empty(),
                    );
                }
                handle.release_write(store);
                r
            },
        }
    }

    /// Reads the value under `key`, with the same checks as `set_local_storage`.
    /// Which value comes back depends on the calls that other callers made first.
    pub fn get_local_storage(
        &self,
        safety: Result<(), UnsafeRpcError>,
        kind: StorageKind,
        key: Bytes,
    ) -> (r: Result<Option<Bytes>, Error>)
        ensures
            match r {
                Ok(_) => call_status(safety, kind) == Ok::<(), Error>(()),
                Err(e) => call_status(safety, kind) == Err::<(), Error>(e),
            },
    {
        match check_call(safety, kind) {
            Err(e) => Err(e),
            Ok(_) => {
                let handle = self.storage.acquire_read();
                let found = read_entry(handle.borrow(), safety, kind, key.0.as_slice());
                handle.release_read();
                match found {
                    Ok(Some(v)) => Ok(Some(Bytes(v))),
                    Ok(None) => Ok(None),
                    Err(e) => Err(e),
                }
            },
        }
    }
}

} // verus!
