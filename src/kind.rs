use vstd::prelude::*;

use crate::error::Error;
use sp_core::offchain::StorageKind;

verus! {

#[verifier::external_type_specification]
pub struct ExStorageKind(sp_core::offchain::StorageKind);

/// The bytes of the prefix under which every persistent offchain entry is kept.
pub open spec fn persistent_prefix() -> Seq<u8> {
    seq![115u8, 116u8, 111u8, 114u8, 97u8, 103u8, 101u8]
}

/// Relies on sp_offchain::STORAGE_PREFIX (sp_core's offchain prefix), which is the
/// byte string "storage".
#[verifier::external_body]
fn storage_prefix() -> (r: &'static [u8])
    ensures
        r@ == persistent_prefix(),
{
    sp_offchain::STORAGE_PREFIX
}

/// The prefix that entries of `kind` are stored under, or the error for a kind
/// that this service does not serve.
pub open spec fn prefix_of(kind: StorageKind) -> Result<Seq<u8>, Error> {
    match kind {
        StorageKind::PERSISTENT => Ok(persistent_prefix()),
        StorageKind::LOCAL => Err(Error::UnavailableStorageKind),
    }
}

/// Picks the database prefix for `kind`: only the persistent kind is served.
pub fn select_prefix(kind: StorageKind) -> (r: Result<&'static [u8], Error>)
    ensures
        match r {
            Ok(p) => prefix_of(kind) == Ok::<Seq<u8>, Error>(p@),
            Err(e) => prefix_of(kind) == Err::<Seq<u8>, Error>(e),
        },
{
    match kind {
        StorageKind::PERSISTENT => Ok(storage_prefix()),
        StorageKind::LOCAL => Err(Error::UnavailableStorageKind),
    }
}

} // verus!
