//! Access-control key provider for a secret-storage service.
//!
//! The crate answers "which keys may this account access?" by combining a
//! pure identifier codec, an ABI layer for the on-chain ACL contract, and a
//! provider that caches the ACL contract's address behind a verified
//! reader/writer lock.

pub mod abi;
pub mod ids;
pub mod provider;

pub use ids::address_to_key;
pub use ids::key_to_address;
pub use ids::Address;
pub use ids::KeyId;
pub use provider::BlockId;
pub use provider::KeyProvider;
pub use provider::SecretStoreKeys;
pub use provider::StoringKeyProvider;
