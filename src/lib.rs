//! A fixed-supply collection of five orbitals: minting, the instance
//! registry kept in a byte-keyed store, and the queries over it.
//!
//! The host's work (storage, the sequence counter, calls into other
//! contracts) stays outside: a mint is planned with `next_mint`, the caller
//! makes the call and reads the sequence counter, and `record_mint` records
//! the outcome.

pub mod codec;
pub mod collection;
pub mod laws;
pub mod metadata;
pub mod queries;
pub mod store;
pub mod types;

pub use collection::{GigaDogiCollection, MintRun};
pub use store::Store;
pub use types::{AlkaneId, AlkaneTransfer, CallResponse, Cellpack, CollectionError, Context};
