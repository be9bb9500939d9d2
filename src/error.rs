use vstd::prelude::*;

verus! {

/// The safety check refused the call: the caller may not run unsafe methods.
#[derive(Clone, Copy, Debug, PartialEq, Eq, Structural)]
pub struct UnsafeRpcError;

/// What an offchain storage call can fail with.
#[derive(Clone, Copy, Debug, PartialEq, Eq, Structural)]
pub enum Error {
    /// The requested storage kind is not served by this service.
    UnavailableStorageKind,
    /// The safety check denied the call.
    UnsafeRpcCalled(UnsafeRpcError),
}

impl Error {
    /// A short human-readable description of the error.
    pub fn message(&self) -> (r: &'static str)
        ensures
            *self == Error::UnavailableStorageKind ==> r@ == "This storage kind is not available yet."@,
            self is UnsafeRpcCalled ==> r@ == "RPC call is unsafe to be called externally"@,
    {
        match self {
            Error::UnavailableStorageKind => "This storage kind is not available yet.",
            Error::UnsafeRpcCalled(_) => "RPC call is unsafe to be called externally",
        }
    }
}

impl From<UnsafeRpcError> for Error {
    fn from(e: UnsafeRpcError) -> (r: Error)
        ensures
            r == Error::UnsafeRpcCalled(e),
    {
        Error::UnsafeRpcCalled(e)
    }
}

impl vstd::std_specs::convert::FromSpecImpl<UnsafeRpcError> for Error {
    open spec fn obeys_from_spec() -> bool {
        true
    }

    open spec fn from_spec(e: UnsafeRpcError) -> Error {
        Error::UnsafeRpcCalled(e)
    }
}

} // verus!
