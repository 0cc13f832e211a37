//! Marker types naming the chains a client can target.
//!
//! Each marker identifies one supported chain and carries an arbitrary
//! caller-chosen extension type; the surrounding node plumbing picks
//! concrete network and node types from the marker.

use vstd::prelude::*;

verus! {

use core::marker::PhantomData;

/// Relies on `PhantomData`'s `Clone`: a marker value clones to itself.
pub assume_specification<T: core::marker::PointeeSized>[ <PhantomData<T> as Clone>::clone ](
    v: &PhantomData<T>,
) -> (r: PhantomData<T>)
    ensures
        r == *v,
;

/// What any extension type must satisfy to ride along on a chain marker.
pub trait AllExtensions: Send + Sync + Clone + Copy + Unpin + 'static {

}

impl<T> AllExtensions for T where T: Send + Sync + Clone + Copy + Unpin + 'static {

}

/// Marker for the base mainnet chain.
#[derive(Default, Debug, Clone, Copy, PartialEq, Eq)]
pub struct BaseMainnetExt<Extension = ()>(PhantomData<Extension>);

impl<Extension: AllExtensions> BaseMainnetExt<Extension> {
    /// The chain id the marker names.
    pub fn chain_id() -> (r: u64)
        ensures
            r == 8453,
    {
        8453
    }
}

/// Marker for the sepolia testnet chain.
#[derive(Default, Debug, Clone, Copy, PartialEq, Eq)]
pub struct SepoliaTestnetExt<Extension = ()>(PhantomData<Extension>);

impl<Extension: AllExtensions> SepoliaTestnetExt<Extension> {
    /// The chain id the marker names.
    pub fn chain_id() -> (r: u64)
        ensures
            r == 11155111,
    {
        11155111
    }
}

} // verus!
