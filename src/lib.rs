//! A safe layer over an end-to-end encryption protocol engine: its status
//! codes and error taxonomy, public-key encoding and ordering, pre-key
//! numbering, the order in which a context and a store context are set up,
//! the storage and crypto capabilities the embedding application supplies,
//! in-memory stores for them, and the checks made before the engine's
//! requests reach them.
pub mod address;
mod bytes;
pub mod crypto;
pub mod errors;
pub mod keys;
pub mod memory_sessions;
pub mod prekeys;
pub mod setup;
pub mod stores;

pub use address::Address;
pub use crypto::{CipherMode, Crypto, SignalCipherType, SignalCipherTypeError};
pub use errors::{Error, InternalError};
pub use keys::PublicKey;
pub use memory_sessions::MemorySessionStore;
pub use prekeys::{PreKey, PreKeyList, Timestamp};
pub use setup::{ContextSetupStep, SessionBuilderState, StoreSetupStep};
pub use stores::{IdentityKeyStore, MemoryKeyStore, PreKeyStore, SessionStore, SignedPreKeyStore};
