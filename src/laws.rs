use vstd::prelude::*;

use crate::error::{Error, UnsafeRpcError};
use crate::kind::persistent_prefix;
use crate::service::{
    agrees_outside_prefix,
    starts_with_prefix,
    call_status,
    entries_after_clear,
    entries_after_write,
    read_result,
};
use sp_core::offchain::StorageKind;

verus! {

/// A permitted persistent write of `value` under `key`, followed by a permitted
/// persistent read of `key`, reads back `value`.
pub proof fn lemma_write_then_read(m: Map<Seq<u8>, Seq<u8>>, key: Seq<u8>, value: Seq<u8>)
    ensures
        read_result(
            entries_after_write(m, Ok(()), StorageKind::PERSISTENT, key, value),
            Ok(()),
            StorageKind::PERSISTENT,
            key,
        ) == Ok::<Option<Seq<u8>>, Error>(Some(value)),
{
}

/// A permitted persistent clear of `key`, followed by a permitted persistent
/// read of `key`, finds nothing, whatever the store held before.
pub proof fn lemma_clear_then_read(m: Map<Seq<u8>, Seq<u8>>, key: Seq<u8>)
    ensures
        read_result(
            entries_after_clear(m, Ok(()), StorageKind::PERSISTENT, key),
            Ok(()),
            StorageKind::PERSISTENT,
            key,
        ) == Ok::<Option<Seq<u8>>, Error>(None),
{
}

/// For a permitted caller, write, clear and read of the local kind each fail
/// with `UnavailableStorageKind` and leave the store as it was.
pub proof fn lemma_local_kind_unavailable(
    m: Map<Seq<u8>, Seq<u8>>,
    key: Seq<u8>,
    value: Seq<u8>,
)
    ensures
        call_status(Ok(()), StorageKind::LOCAL) == Err::<(), Error>(Error::UnavailableStorageKind),
        entries_after_write(m, Ok(()), StorageKind::LOCAL, key, value) == m,
        entries_after_clear(m, Ok(()), StorageKind::LOCAL, key) == m,
        read_result(m, Ok(()), StorageKind::LOCAL, key) == Err::<Option<Seq<u8>>, Error>(
            Error::UnavailableStorageKind,
        ),
{
}

/// When the safety check denies the call, write, clear and read of any kind fail
/// with the safety check's error, and a later permitted read of any key sees the store
/// as it was before.
pub proof fn lemma_denied_calls_change_nothing(
    m: Map<Seq<u8>, Seq<u8>>,
    e: UnsafeRpcError,
    kind: StorageKind,
    key: Seq<u8>,
    value: Seq<u8>,
    later: Seq<u8>,
)
    ensures
        call_status(Err(e), kind) == Err::<(), Error>(Error::UnsafeRpcCalled(e)),
        read_result(m, Err(e), kind, key) == Err::<Option<Seq<u8>>, Error>(
            Error::UnsafeRpcCalled(e),
        ),
        read_result(
            entries_after_write(m, Err(e), kind, key, value),
            Ok(()),
            StorageKind::PERSISTENT,
            later,
        ) == read_result(m, Ok(()), StorageKind::PERSISTENT, later),
        read_result(
            entries_after_clear(m, Err(e), kind, key),
            Ok(()),
            StorageKind::PERSISTENT,
            later,
        ) == read_result(m, Ok(()), StorageKind::PERSISTENT, later),
{
}

/// Two permitted persistent writes to the same key, applied one after the other
/// in either order, leave exactly the value of the one applied last: never a
/// mixture of the two.
pub proof fn lemma_last_write_wins(
    m: Map<Seq<u8>, Seq<u8>>,
    key: Seq<u8>,
    first: Seq<u8>,
    second: Seq<u8>,
)
    ensures
        read_result(
            entries_after_write(
                entries_after_write(m, Ok(()), StorageKind::PERSISTENT, key, first),
                Ok(()),
                StorageKind::PERSISTENT,
                key,
                second,
            ),
            Ok(()),
            StorageKind::PERSISTENT,
            key,
        ) == Ok::<Option<Seq<u8>>, Error>(Some(second)),
{
}

/// Writes and clears, permitted or not, leave alone every entry whose database
/// key lies outside the persistent namespace: a store that agrees with `i` there
/// still agrees with it afterwards.
pub proof fn lemma_calls_keep_other_namespaces(
    m: Map<Seq<u8>, Seq<u8>>,
    i: Map<Seq<u8>, Seq<u8>>,
    safety: Result<(), UnsafeRpcError>,
    kind: StorageKind,
    key: Seq<u8>,
    value: Seq<u8>,
)
    requires
        agrees_outside_prefix(m, i),
    ensures
        agrees_outside_prefix(entries_after_write(m, safety, kind, key, value), i),
        agrees_outside_prefix(entries_after_clear(m, safety, kind, key), i),
{
    let p = persistent_prefix();
    assert((p + key).subrange(0, p.len() as int) =~= p);
    assert(starts_with_prefix(p + key));
    let w = entries_after_write(m, safety, kind, key, value);
    assert forall|k: Seq<u8>| !starts_with_prefix(k) implies (#[trigger] w.contains_key(k)
        == i.contains_key(k) && (w.contains_key(k) ==> w[k] == i[k])) by {
        assert(m.contains_key(k) == i.contains_key(k));
        assert(k != p + key);
    }
    let c = entries_after_clear(m, safety, kind, key);
    assert forall|k: Seq<u8>| !starts_with_prefix(k) implies (#[trigger] c.contains_key(k)
        == i.contains_key(k) && (c.contains_key(k) ==> c[k] == i[k])) by {
        assert(m.contains_key(k) == i.contains_key(k));
        assert(k != p + key);
    }
}

} // verus!
