use vstd::prelude::*;

use sp_core::offchain::storage::InMemOffchainStorage;
use sp_core::offchain::OffchainStorage;

verus! {

/// The database key under which `key` is kept in the namespace `prefix`.
pub open spec fn db_key(prefix: Seq<u8>, key: Seq<u8>) -> Seq<u8> {
    prefix + key
}

/// A key-value store of the offchain database, seen as a map from database key
/// (prefix followed by key) to value.
pub trait OffchainStore: Sized {
    /// The entries of the store.
    spec fn entries(&self) -> Map<Seq<u8>, Seq<u8>>;

    /// Stores `value` under `key` in the namespace `prefix`, replacing any earlier value.
    fn set(&mut self, prefix: &[u8], key: &[u8], value: &[u8])
        ensures
            final(self).entries() == old(self).entries().insert(db_key(prefix@, key@), value@),
    ;

    /// Removes the value under `key` in the namespace `prefix`, if there is one.
    fn remove(&mut self, prefix: &[u8], key: &[u8])
        ensures
            final(self).entries() == old(self).entries().remove(db_key(prefix@, key@)),
    ;

    /// The value under `key` in the namespace `prefix`, if there is one.
    fn get(&self, prefix: &[u8], key: &[u8]) -> (r: Option<Vec<u8>>)
        ensures
            match r {
                Some(v) => self.entries().contains_key(db_key(prefix@, key@))
                    && self.entries()[db_key(prefix@, key@)] == v@,
                None => !self.entries().contains_key(db_key(prefix@, key@)),
            },
    ;
}

#[verifier::external_type_specification]
#[verifier::external_body]
pub struct ExInMemOffchainStorage(sp_core::offchain::storage::InMemOffchainStorage);

/// What an in-memory offchain store holds, by database key.
pub uninterp spec fn in_mem_entries(s: sp_core::offchain::storage::InMemOffchainStorage) -> Map<
    Seq<u8>,
    Seq<u8>,
>;

/// Relies on `<InMemOffchainStorage as OffchainStorage>::set`: it inserts
/// `value` under the key made of `prefix` followed by `key` in its hash map.
#[verifier::external_body]
fn in_mem_set(s: &mut InMemOffchainStorage, prefix: &[u8], key: &[u8], value: &[u8])
    ensures
        in_mem_entries(*final(s)) == in_mem_entries(*old(s)).insert(prefix@ + key@, value@),
{
    OffchainStorage::set(s, prefix, key, value)
}

/// Relies on `<InMemOffchainStorage as OffchainStorage>::remove`: it removes
/// the key made of `prefix` followed by `key` from its hash map.
#[verifier::external_body]
fn in_mem_remove(s: &mut InMemOffchainStorage, prefix: &[u8], key: &[u8])
    ensures
        in_mem_entries(*final(s)) == in_mem_entries(*old(s)).remove(prefix@ + key@),
{
    OffchainStorage::remove(s, prefix, key)
}

/// Relies on `<InMemOffchainStorage as OffchainStorage>::get`: it looks up the
/// key made of `prefix` followed by `key` in its hash map and clones the value.
#[verifier::external_body]
fn in_mem_get(s: &InMemOffchainStorage, prefix: &[u8], key: &[u8]) -> (r: Option<Vec<u8>>)
    ensures
        match r {
            Some(v) => in_mem_entries(*s).contains_key(prefix@ + key@) && in_mem_entries(
                *s,
            )[prefix@ + key@] == v@,
            None => !in_mem_entries(*s).contains_key(prefix@ + key@),
        },
{
    OffchainStorage::get(s, prefix, key)
}

impl OffchainStore for InMemOffchainStorage {
    open spec fn entries(&self) -> Map<Seq<u8>, Seq<u8>> {
        in_mem_entries(*self)
    }

    fn set(&mut self, prefix: &[u8], key: &[u8], value: &[u8]) {
        in_mem_set(self, prefix, key, value);
    }

    fn remove(&mut self, prefix: &[u8], key: &[u8]) {
        in_mem_remove(self, prefix, key);
    }

    fn get(&self, prefix: &[u8], key: &[u8]) -> (r: Option<Vec<u8>>) {
        in_mem_get(self, prefix, key)
    }
}

} // verus!
