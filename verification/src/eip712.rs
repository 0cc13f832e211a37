//! The signing domain of the Angstrom contracts.

use vstd::prelude::*;

verus! {

use crate::types::Address;

/// An EIP-712 signing domain: the contract family's name and version, the
/// chain the deployment signs for, and the verifying contract.
#[derive(Clone, Debug)]
pub struct Eip712Domain {
    pub name: String,
    pub version: String,
    pub chain_id: u64,
    pub verifying_contract: Address,
}

/// Builds the Angstrom signing domain for a chain and verifying contract:
/// the name is always "Angstrom" and the version "v1".
pub fn angstrom_domain(chain_id: u64, verifying_contract: Address) -> (r: Eip712Domain)
    ensures
        r.name@ == "Angstrom"@,
        r.version@ == "v1"@,
        r.chain_id == chain_id,
        r.verifying_contract == verifying_contract,
{
    Eip712Domain {
        name: "Angstrom".to_owned(),
        version: "v1".to_owned(),
        chain_id,
        verifying_contract,
    }
}

} // verus!
