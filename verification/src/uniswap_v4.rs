//! Well-known deployment addresses of the fourth-version exchange
//! contracts, one immutable record per supported chain.

use vstd::prelude::*;

verus! {

use crate::types::Address;

/// Well-known contract addresses of the fourth-version exchange deployment on one chain.
#[derive(Clone, Copy, Debug)]
pub struct UniswapV4Constants {
    pub pool_manager: Address,
    pub position_descriptor: Option<Address>,
    pub position_manager: Address,
    pub quoter: Address,
    pub state_view: Address,
    pub universal_router: Address,
    pub permit2: Address,
}

/// The UniswapV4Constants record of the mainnet chain.
pub open spec fn spec_uniswap_v4_constants_mainnet() -> UniswapV4Constants {
    UniswapV4Constants {
        pool_manager: Address { lo: 0x58380d2e3de08a90, mid: 0x0004444c5dc75cb3, hi: 0x00000000 },
        position_descriptor: Some(Address { lo: 0x2040a4935c63f06c, mid: 0x54f4c8450b763a0b, hi: 0xd1428ba5 }),
        position_manager: Address { lo: 0x6aaa6420ff64ee9e, mid: 0xd74c8cf14cf4747e, hi: 0xbd216513 },
        quoter: Address { lo: 0xd6198556bd9e1203, mid: 0x1c21c8a0cb1e5a5d, hi: 0x52f0e24d },
        state_view: Address { lo: 0x4c136cf115597227, mid: 0xa5deea5b0fec41c9, hi: 0x7ffe42c4 },
        universal_router: Address { lo: 0x05d03f95e1dba8af, mid: 0xc07d91d95644aedd, hi: 0x66a9893c },
        permit2: Address { lo: 0xdee9f6b43ac78ba3, mid: 0x0022d473030f116d, hi: 0x00000000 },
    }
}

/// Builds the mainnet record.
pub fn uniswap_v4_constants_mainnet() -> (r: UniswapV4Constants)
    ensures
        r == spec_uniswap_v4_constants_mainnet(),
{
    UniswapV4Constants {
        pool_manager: Address { lo: 0x58380d2e3de08a90, mid: 0x0004444c5dc75cb3, hi: 0x00000000 },
        position_descriptor: Some(Address { lo: 0x2040a4935c63f06c, mid: 0x54f4c8450b763a0b, hi: 0xd1428ba5 }),
        position_manager: Address { lo: 0x6aaa6420ff64ee9e, mid: 0xd74c8cf14cf4747e, hi: 0xbd216513 },
        quoter: Address { lo: 0xd6198556bd9e1203, mid: 0x1c21c8a0cb1e5a5d, hi: 0x52f0e24d },
        state_view: Address { lo: 0x4c136cf115597227, mid: 0xa5deea5b0fec41c9, hi: 0x7ffe42c4 },
        universal_router: Address { lo: 0x05d03f95e1dba8af, mid: 0xc07d91d95644aedd, hi: 0x66a9893c },
        permit2: Address { lo: 0xdee9f6b43ac78ba3, mid: 0x0022d473030f116d, hi: 0x00000000 },
    }
}

/// The UniswapV4Constants record of the base mainnet chain.
pub open spec fn spec_uniswap_v4_constants_base_mainnet() -> UniswapV4Constants {
    UniswapV4Constants {
        pool_manager: Address { lo: 0x956af099b2652b2b, mid: 0x718922c3f8e6a244, hi: 0x498581ff },
        position_descriptor: Some(Address { lo: 0xc8f3cdaa75f3e7d5, mid: 0x3990dc94bedeed76, hi: 0x25d09363 }),
        position_manager: Address { lo: 0x326123b519429bdc, mid: 0xbd8fd63184577525, hi: 0x7c5f5a4b },
        quoter: Address { lo: 0xf31316121532048d, mid: 0x1ed27fbff6c2837b, hi: 0x0d5e0f97 },
        state_view: Address { lo: 0xb0f3db444b867a71, mid: 0x5bad0b08107aa264, hi: 0xa3c0c9b6 },
        universal_router: Address { lo: 0x8a184ab56d299b43, mid: 0x99212da76ad31617, hi: 0x6ff5693b },
        permit2: Address { lo: 0xdee9f6b43ac78ba3, mid: 0x0022d473030f116d, hi: 0x00000000 },
    }
}

/// Builds the base mainnet record.
pub fn uniswap_v4_constants_base_mainnet() -> (r: UniswapV4Constants)
    ensures
        r == spec_uniswap_v4_constants_base_mainnet(),
{
    UniswapV4Constants {
        pool_manager: Address { lo: 0x956af099b2652b2b, mid: 0x718922c3f8e6a244, hi: 0x498581ff },
        position_descriptor: Some(Address { lo: 0xc8f3cdaa75f3e7d5, mid: 0x3990dc94bedeed76, hi: 0x25d09363 }),
        position_manager: Address { lo: 0x326123b519429bdc, mid: 0xbd8fd63184577525, hi: 0x7c5f5a4b },
        quoter: Address { lo: 0xf31316121532048d, mid: 0x1ed27fbff6c2837b, hi: 0x0d5e0f97 },
        state_view: Address { lo: 0xb0f3db444b867a71, mid: 0x5bad0b08107aa264, hi: 0xa3c0c9b6 },
        universal_router: Address { lo: 0x8a184ab56d299b43, mid: 0x99212da76ad31617, hi: 0x6ff5693b },
        permit2: Address { lo: 0xdee9f6b43ac78ba3, mid: 0x0022d473030f116d, hi: 0x00000000 },
    }
}

/// The UniswapV4Constants record of the unichain mainnet chain.
pub open spec fn spec_uniswap_v4_constants_unichain_mainnet() -> UniswapV4Constants {
    UniswapV4Constants {
        pool_manager: Address { lo: 0x0000000000000004, mid: 0x0000000000000000, hi: 0x1f984000 },
        position_descriptor: Some(Address { lo: 0xfb0f5996ecf7f722, mid: 0xa191cd8c03a1b7ab, hi: 0x9fb28449 }),
        position_manager: Address { lo: 0x87a8de60232617bf, mid: 0x7a0410167c5740c4, hi: 0x4529a01c },
        quoter: Address { lo: 0x58db6e77fe7491e0, mid: 0x7b141b18ff6de9f2, hi: 0x333e3c60 },
        state_view: Address { lo: 0xf484ee3f5fdee8f2, mid: 0x016f9068c3f085fa, hi: 0x86e8631a },
        universal_router: Address { lo: 0xe645d6b98dc8eaf3, mid: 0x3acae26f6492b10d, hi: 0xef740bf2 },
        permit2: Address { lo: 0xdee9f6b43ac78ba3, mid: 0x0022d473030f116d, hi: 0x00000000 },
    }
}

/// Builds the unichain mainnet record.
pub fn uniswap_v4_constants_unichain_mainnet() -> (r: UniswapV4Constants)
    ensures
        r == spec_uniswap_v4_constants_unichain_mainnet(),
{
    UniswapV4Constants {
        pool_manager: Address { lo: 0x0000000000000004, mid: 0x0000000000000000, hi: 0x1f984000 },
        position_descriptor: Some(Address { lo: 0xfb0f5996ecf7f722, mid: 0xa191cd8c03a1b7ab, hi: 0x9fb28449 }),
        position_manager: Address { lo: 0x87a8de60232617bf, mid: 0x7a0410167c5740c4, hi: 0x4529a01c },
        quoter: Address { lo: 0x58db6e77fe7491e0, mid: 0x7b141b18ff6de9f2, hi: 0x333e3c60 },
        state_view: Address { lo: 0xf484ee3f5fdee8f2, mid: 0x016f9068c3f085fa, hi: 0x86e8631a },
        universal_router: Address { lo: 0xe645d6b98dc8eaf3, mid: 0x3acae26f6492b10d, hi: 0xef740bf2 },
        permit2: Address { lo: 0xdee9f6b43ac78ba3, mid: 0x0022d473030f116d, hi: 0x00000000 },
    }
}

/// The UniswapV4Constants record of the sepolia testnet chain.
pub open spec fn spec_uniswap_v4_constants_sepolia_testnet() -> UniswapV4Constants {
    UniswapV4Constants {
        pool_manager: Address { lo: 0x04f1a1536e203543, mid: 0xc86cfedd5c142c4f, hi: 0xe03a1074 },
        position_descriptor: None,
        position_manager: Address { lo: 0xc3a2a3328e5c09b4, mid: 0x29df741b2ca2a85b, hi: 0x429ba701 },
        quoter: Address { lo: 0xa940a7555ccf9227, mid: 0x1a92d183c7dbadbd, hi: 0x61b3f201 },
        state_view: Address { lo: 0xdfbc432e24537e4c, mid: 0xa50edb962e442f60, hi: 0xe1dd9c3f },
        universal_router: Address { lo: 0x7599bb04e4bdf98b, mid: 0x9751398bbfa63ad6, hi: 0x3a9d48ab },
        permit2: Address { lo: 0xdee9f6b43ac78ba3, mid: 0x0022d473030f116d, hi: 0x00000000 },
    }
}

/// Builds the sepolia testnet record.
pub fn uniswap_v4_constants_sepolia_testnet() -> (r: UniswapV4Constants)
    ensures
        r == spec_uniswap_v4_constants_sepolia_testnet(),
{
    UniswapV4Constants {
        pool_manager: Address { lo: 0x04f1a1536e203543, mid: 0xc86cfedd5c142c4f, hi: 0xe03a1074 },
        position_descriptor: None,
        position_manager: Address { lo: 0xc3a2a3328e5c09b4, mid: 0x29df741b2ca2a85b, hi: 0x429ba701 },
        quoter: Address { lo: 0xa940a7555ccf9227, mid: 0x1a92d183c7dbadbd, hi: 0x61b3f201 },
        state_view: Address { lo: 0xdfbc432e24537e4c, mid: 0xa50edb962e442f60, hi: 0xe1dd9c3f },
        universal_router: Address { lo: 0x7599bb04e4bdf98b, mid: 0x9751398bbfa63ad6, hi: 0x3a9d48ab },
        permit2: Address { lo: 0xdee9f6b43ac78ba3, mid: 0x0022d473030f116d, hi: 0x00000000 },
    }
}

impl UniswapV4Constants {
    /// The registry entry for a chain id, or `None` where the chain is
    /// unsupported.
    pub fn by_chain(chain_id: u64) -> (r: Option<Self>)
        ensures
            r == (if chain_id == 1 { Some(spec_uniswap_v4_constants_mainnet()) } else if chain_id == 130 { Some(spec_uniswap_v4_constants_unichain_mainnet()) } else if chain_id == 8453 { Some(spec_uniswap_v4_constants_base_mainnet()) } else if chain_id == 11155111 { Some(spec_uniswap_v4_constants_sepolia_testnet()) } else { None::<UniswapV4Constants> }),
    {
        match chain_id {
            1 => Some(uniswap_v4_constants_mainnet()),
            130 => Some(uniswap_v4_constants_unichain_mainnet()),
            8453 => Some(uniswap_v4_constants_base_mainnet()),
            11155111 => Some(uniswap_v4_constants_sepolia_testnet()),
            _ => None,
        }
    }

    /// The `pool_manager` entry.
    pub fn pool_manager(&self) -> (r: Address)
        ensures
            r == self.pool_manager,
    {
        self.pool_manager
    }

    /// The `position_descriptor` entry.
    pub fn position_descriptor(&self) -> (r: Option<Address>)
        ensures
            r == self.position_descriptor,
    {
        self.position_descriptor
    }

    /// The `position_manager` entry.
    pub fn position_manager(&self) -> (r: Address)
        ensures
            r == self.position_manager,
    {
        self.position_manager
    }

    /// The `quoter` entry.
    pub fn quoter(&self) -> (r: Address)
        ensures
            r == self.quoter,
    {
        self.quoter
    }

    /// The `state_view` entry.
    pub fn state_view(&self) -> (r: Address)
        ensures
            r == self.state_view,
    {
        self.state_view
    }

    /// The `universal_router` entry.
    pub fn universal_router(&self) -> (r: Address)
        ensures
            r == self.universal_router,
    {
        self.universal_router
    }

    /// The `permit2` entry.
    pub fn permit2(&self) -> (r: Address)
        ensures
            r == self.permit2,
    {
        self.permit2
    }
}

} // verus!
