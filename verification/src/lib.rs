//! Off-chain reconstruction of a concentrated-liquidity AMM's internal
//! accounting state, read directly from raw contract storage cells.
//!
//! The crate computes the exact storage slot of each logical field from the
//! contract's declared layout (scalars, packed structs, mappings, dynamic
//! arrays), decodes packed bitfield words into typed configuration records,
//! derives pool and position identifiers by hashing, and reproduces the
//! tick-crossing reward-growth accounting used by the deployed contracts.

pub mod angstrom;
pub mod angstrom_constants;
pub mod angstrom_l2;
pub mod angstrom_l2_constants;
pub mod angstrom_l2_factory;
pub mod bytes;
pub mod codec;
pub mod eip712;
pub mod fetcher;
pub mod growth;
pub mod keccak;
pub mod keys;
pub mod network_ext;
pub mod runner;
pub mod slots;
pub mod types;
pub mod uniswap_v3;
pub mod uniswap_v4;
pub mod word;

pub use fetcher::{StorageError, StorageSlotFetcherSync};
pub use keys::PoolKey;
pub use types::Address;
pub use word::Word;
