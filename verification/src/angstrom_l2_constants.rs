//! Well-known addresses and deployment metadata of the per-pool Angstrom
//! hook deployments, one immutable record per supported chain.

use vstd::prelude::*;

verus! {

use crate::eip712::{angstrom_domain, Eip712Domain};
use crate::types::Address;
use crate::uniswap_v4::{
    spec_uniswap_v4_constants_base_mainnet,
    spec_uniswap_v4_constants_unichain_mainnet,
    uniswap_v4_constants_base_mainnet,
    uniswap_v4_constants_unichain_mainnet,
    UniswapV4Constants,
};

/// Deployment record of the per-pool Angstrom hook family on one chain:
/// the hook factory, the address miner, where and when the family was
/// deployed, and the exchange contracts it builds on.
#[derive(Clone, Copy, Debug)]
pub struct AngstromL2Constants {
    pub angstrom_l2_factory: Address,
    pub hook_address_miner: Address,
    pub angstrom_deploy_block: u64,
    pub chain_id: u64,
    pub uniswap_constants: UniswapV4Constants,
}

/// The base mainnet deployment record.
pub open spec fn spec_angstrom_l2_constants_base_mainnet() -> AngstromL2Constants {
    AngstromL2Constants {
        angstrom_l2_factory: Address { lo: 0x32b16c0406980c42, mid: 0x0000a0220e791bae, hi: 0x00000000 },
        hook_address_miner: Address { lo: 0xca9656cff31a898a, mid: 0x4b99f142c5c5ca19, hi: 0x80198875 },
        angstrom_deploy_block: 36617377,
        chain_id: 8453,
        uniswap_constants: spec_uniswap_v4_constants_base_mainnet(),
    }
}

/// Builds the base mainnet record.
pub fn angstrom_l2_constants_base_mainnet() -> (r: AngstromL2Constants)
    ensures
        r == spec_angstrom_l2_constants_base_mainnet(),
{
    AngstromL2Constants {
        angstrom_l2_factory: Address { lo: 0x32b16c0406980c42, mid: 0x0000a0220e791bae, hi: 0x00000000 },
        hook_address_miner: Address { lo: 0xca9656cff31a898a, mid: 0x4b99f142c5c5ca19, hi: 0x80198875 },
        angstrom_deploy_block: 36617377,
        chain_id: 8453,
        uniswap_constants: uniswap_v4_constants_base_mainnet(),
    }
}

/// The unichain mainnet deployment record.
pub open spec fn spec_angstrom_l2_constants_unichain_mainnet() -> AngstromL2Constants {
    AngstromL2Constants {
        angstrom_l2_factory: Address { lo: 0x32b16c0406980c42, mid: 0x0000a0220e791bae, hi: 0x00000000 },
        hook_address_miner: Address { lo: 0xfb2f0da6645a10f5, mid: 0xee62c006730a5a4d, hi: 0x98bd6680 },
        angstrom_deploy_block: 29275745,
        chain_id: 130,
        uniswap_constants: spec_uniswap_v4_constants_unichain_mainnet(),
    }
}

/// Builds the unichain mainnet record.
pub fn angstrom_l2_constants_unichain_mainnet() -> (r: AngstromL2Constants)
    ensures
        r == spec_angstrom_l2_constants_unichain_mainnet(),
{
    AngstromL2Constants {
        angstrom_l2_factory: Address { lo: 0x32b16c0406980c42, mid: 0x0000a0220e791bae, hi: 0x00000000 },
        hook_address_miner: Address { lo: 0xfb2f0da6645a10f5, mid: 0xee62c006730a5a4d, hi: 0x98bd6680 },
        angstrom_deploy_block: 29275745,
        chain_id: 130,
        uniswap_constants: uniswap_v4_constants_unichain_mainnet(),
    }
}

impl AngstromL2Constants {
    /// The registry entry for a chain id, or `None` where the chain is
    /// unsupported.
    pub fn by_chain(chain_id: u64) -> (r: Option<Self>)
        ensures
            r == (if chain_id == 130 {
                Some(spec_angstrom_l2_constants_unichain_mainnet())
            } else if chain_id == 8453 {
                Some(spec_angstrom_l2_constants_base_mainnet())
            } else {
                None::<AngstromL2Constants>
            }),
    {
        match chain_id {
            130 => Some(angstrom_l2_constants_unichain_mainnet()),
            8453 => Some(angstrom_l2_constants_base_mainnet()),
            _ => None,
        }
    }

    /// The hook factory's address.
    pub fn angstrom_l2_factory(&self) -> (r: Address)
        ensures
            r == self.angstrom_l2_factory,
    {
        self.angstrom_l2_factory
    }

    /// The hook address miner's address.
    pub fn hook_address_miner(&self) -> (r: Address)
        ensures
            r == self.hook_address_miner,
    {
        self.hook_address_miner
    }

    /// The block the family was deployed at.
    pub fn angstrom_deploy_block(&self) -> (r: u64)
        ensures
            r == self.angstrom_deploy_block,
    {
        self.angstrom_deploy_block
    }

    /// The chain the record belongs to.
    pub fn chain_id(&self) -> (r: u64)
        ensures
            r == self.chain_id,
    {
        self.chain_id
    }

    /// The signing domain of this deployment family; no single contract
    /// verifies, so the verifying address is zero.
    pub fn angstrom_eip712_domain(&self) -> (r: Eip712Domain)
        ensures
            r.name@ == "Angstrom"@,
            r.version@ == "v1"@,
            r.chain_id == self.chain_id,
            r.verifying_contract.as_nat() == 0,
    {
        angstrom_domain(self.chain_id, Address::zero())
    }

    /// The exchange deployment this record builds on.
    pub fn uniswap_constants(&self) -> (r: UniswapV4Constants)
        ensures
            r == self.uniswap_constants,
    {
        self.uniswap_constants
    }
}

} // verus!
