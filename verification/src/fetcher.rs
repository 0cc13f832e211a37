//! The storage read capability.
//!
//! Every query of this crate reads raw 32-byte storage cells through this
//! narrow interface; whatever transport or backing store performs the read
//! implements it. An unset cell reads as the all-zero word — within this
//! interface no slot is ever "not found".

use vstd::prelude::*;

verus! {

use crate::types::Address;
use crate::word::Word;

/// Why a storage query failed.
#[derive(Clone, Debug)]
pub enum StorageError {
    /// The read capability failed; its message is carried verbatim.
    Read(String),
    /// A storage value did not fit the width the declared layout promises,
    /// such as a dynamic array length beyond 64 bits.
    ValueOutOfRange,
}

/// A single-operation capability: the 256-bit value stored at `key` of the
/// contract at `address`, at the given block height (or the latest block
/// where none is given), or a read failure.
pub trait StorageSlotFetcherSync {
    /// Reads one storage cell.
    fn storage_at(&self, address: Address, key: Word, block_number: Option<u64>) -> Result<
        Word,
        StorageError,
    >;
}

} // verus!
