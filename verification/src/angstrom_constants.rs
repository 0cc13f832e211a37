//! Well-known addresses and deployment metadata of the first-deployment
//! Angstrom contract, one immutable record per supported chain.

use vstd::prelude::*;

verus! {

use crate::eip712::{angstrom_domain, Eip712Domain};
use crate::types::Address;
use crate::uniswap_v4::{
    spec_uniswap_v4_constants_mainnet,
    spec_uniswap_v4_constants_sepolia_testnet,
    uniswap_v4_constants_mainnet,
    uniswap_v4_constants_sepolia_testnet,
    UniswapV4Constants,
};

/// Deployment record of the first-deployment Angstrom contract on one
/// chain: its own address, its controller, the gas token it settles in,
/// where and when it was deployed, and the exchange contracts it builds on.
#[derive(Clone, Copy, Debug)]
pub struct AngstromL1Constants {
    pub angstrom_address: Address,
    pub controller_v1_address: Address,
    pub gas_token_address: Address,
    pub angstrom_deploy_block: u64,
    pub chain_id: u64,
    pub uniswap_constants: UniswapV4Constants,
}

/// The mainnet deployment record.
pub open spec fn spec_angstrom_l1_constants_mainnet() -> AngstromL1Constants {
    AngstromL1Constants {
        angstrom_address: Address { lo: 0x797d089aa4edfad4, mid: 0xa232009084bd71a5, hi: 0x0000000a },
        controller_v1_address: Address { lo: 0x102c8c33e0315fd4, mid: 0xa5e11c75e009252c, hi: 0x1746484e },
        gas_token_address: Address { lo: 0x27ead9083c756cc2, mid: 0xb223fe8d0a0e5c4f, hi: 0xc02aaa39 },
        angstrom_deploy_block: 22971781,
        chain_id: 1,
        uniswap_constants: spec_uniswap_v4_constants_mainnet(),
    }
}

/// Builds the mainnet record.
pub fn angstrom_l1_constants_mainnet() -> (r: AngstromL1Constants)
    ensures
        r == spec_angstrom_l1_constants_mainnet(),
{
    AngstromL1Constants {
        angstrom_address: Address { lo: 0x797d089aa4edfad4, mid: 0xa232009084bd71a5, hi: 0x0000000a },
        controller_v1_address: Address { lo: 0x102c8c33e0315fd4, mid: 0xa5e11c75e009252c, hi: 0x1746484e },
        gas_token_address: Address { lo: 0x27ead9083c756cc2, mid: 0xb223fe8d0a0e5c4f, hi: 0xc02aaa39 },
        angstrom_deploy_block: 22971781,
        chain_id: 1,
        uniswap_constants: uniswap_v4_constants_mainnet(),
    }
}

/// The sepolia testnet deployment record.
pub open spec fn spec_angstrom_l1_constants_sepolia_testnet() -> AngstromL1Constants {
    AngstromL1Constants {
        angstrom_address: Address { lo: 0xde29e09036626afc, mid: 0x12bd245a07da0d43, hi: 0x3b9172ef },
        controller_v1_address: Address { lo: 0x7adafc99ebed2a7a, mid: 0xcee5b5de090006e8, hi: 0x977c67e6 },
        gas_token_address: Address { lo: 0xebab18b2324d6b14, mid: 0x82d46cc05630d1f6, hi: 0xfff99767 },
        angstrom_deploy_block: 8578780,
        chain_id: 11155111,
        uniswap_constants: spec_uniswap_v4_constants_sepolia_testnet(),
    }
}

/// Builds the sepolia testnet record.
pub fn angstrom_l1_constants_sepolia_testnet() -> (r: AngstromL1Constants)
    ensures
        r == spec_angstrom_l1_constants_sepolia_testnet(),
{
    AngstromL1Constants {
        angstrom_address: Address { lo: 0xde29e09036626afc, mid: 0x12bd245a07da0d43, hi: 0x3b9172ef },
        controller_v1_address: Address { lo: 0x7adafc99ebed2a7a, mid: 0xcee5b5de090006e8, hi: 0x977c67e6 },
        gas_token_address: Address { lo: 0xebab18b2324d6b14, mid: 0x82d46cc05630d1f6, hi: 0xfff99767 },
        angstrom_deploy_block: 8578780,
        chain_id: 11155111,
        uniswap_constants: uniswap_v4_constants_sepolia_testnet(),
    }
}

impl AngstromL1Constants {
    /// The registry entry for a chain id, or `None` where the chain is
    /// unsupported.
    pub fn by_chain(chain_id: u64) -> (r: Option<Self>)
        ensures
            r == (if chain_id == 1 {
                Some(spec_angstrom_l1_constants_mainnet())
            } else if chain_id == 11155111 {
                Some(spec_angstrom_l1_constants_sepolia_testnet())
            } else {
                None::<AngstromL1Constants>
            }),
    {
        match chain_id {
            1 => Some(angstrom_l1_constants_mainnet()),
            11155111 => Some(angstrom_l1_constants_sepolia_testnet()),
            _ => None,
        }
    }

    /// The deployed Angstrom contract's address.
    pub fn angstrom_address(&self) -> (r: Address)
        ensures
            r == self.angstrom_address,
    {
        self.angstrom_address
    }

    /// The controller contract's address.
    pub fn controller_v1_address(&self) -> (r: Address)
        ensures
            r == self.controller_v1_address,
    {
        self.controller_v1_address
    }

    /// The gas token's address.
    pub fn gas_token_address(&self) -> (r: Address)
        ensures
            r == self.gas_token_address,
    {
        self.gas_token_address
    }

    /// The block the contract was deployed at.
    pub fn angstrom_deploy_block(&self) -> (r: u64)
        ensures
            r == self.angstrom_deploy_block,
    {
        self.angstrom_deploy_block
    }

    /// The chain the record belongs to.
    pub fn chain_id(&self) -> (r: u64)
        ensures
            r == self.chain_id,
    {
        self.chain_id
    }

    /// The signing domain of this deployment: the contract itself verifies.
    pub fn angstrom_eip712_domain(&self) -> (r: Eip712Domain)
        ensures
            r.name@ == "Angstrom"@,
            r.version@ == "v1"@,
            r.chain_id == self.chain_id,
            r.verifying_contract == self.angstrom_address,
    {
        angstrom_domain(self.chain_id, self.angstrom_address)
    }

    /// The exchange deployment this record builds on.
    pub fn uniswap_constants(&self) -> (r: UniswapV4Constants)
        ensures
            r == self.uniswap_constants,
    {
        self.uniswap_constants
    }
}

} // verus!
