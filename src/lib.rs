//! Offchain storage access service: write, clear and read entries of the
//! persistent offchain database, with every call subject to a safety check.
//!
//! `service` holds the operations. Each one asks the safety check's verdict first,
//! then checks the storage kind, and only then touches the backend. The
//! operations come in two forms. The store-level functions act on a backend
//! given by reference and state the new contents exactly. `Offchain` shares one
//! backend between concurrent callers behind a reader-writer lock. `laws`
//! states what holds across calls.

pub mod error;
pub mod kind;
pub mod laws;
pub mod service;
pub mod store;

pub use error::{Error, UnsafeRpcError};
pub use kind::select_prefix;
pub use service::{check_call, clear_entry, read_entry, write_entry, Offchain};
pub use store::OffchainStore;
