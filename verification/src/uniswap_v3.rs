//! Well-known deployment addresses of the third-version exchange
//! contracts, one immutable record per supported chain.

use vstd::prelude::*;

verus! {

use crate::types::Address;

/// Well-known contract addresses of the third-version exchange deployment on one chain.
#[derive(Clone, Copy, Debug)]
pub struct UniswapV3Constants {
    pub factory: Address,
    pub multicall: Option<Address>,
    pub multicall2: Option<Address>,
    pub proxy_admin: Option<Address>,
    pub tick_lens: Option<Address>,
    pub quoter: Option<Address>,
    pub swap_router: Option<Address>,
    pub nft_descriptor: Option<Address>,
    pub position_descriptor: Option<Address>,
    pub transparent_upgradeable_proxy: Option<Address>,
    pub position_manager: Option<Address>,
    pub v3_migrator: Option<Address>,
    pub quoter_v2: Option<Address>,
    pub swap_router_02: Option<Address>,
    pub permit2: Option<Address>,
    pub universal_router: Option<Address>,
    pub v3_staker: Option<Address>,
}

/// The UniswapV3Constants record of the mainnet chain.
pub open spec fn spec_uniswap_v3_constants_mainnet() -> UniswapV3Constants {
    UniswapV3Constants {
        factory: Address { lo: 0x9f267346ea31f984, mid: 0x8ad98523631ae4a5, hi: 0x1f98431c },
        multicall: Some(Address { lo: 0x46b32eb19261f984, mid: 0x57620b543a52e61c, hi: 0x1f984157 }),
        multicall2: Some(Address { lo: 0x0482f4739beed696, mid: 0x93dc8f9c48aad877, hi: 0x5ba1e126 }),
        proxy_admin: Some(Address { lo: 0xf9ca1bdab2e90cf2, mid: 0x6e010e7e680ba186, hi: 0xb753548f }),
        tick_lens: Some(Address { lo: 0x23914859ec47f573, mid: 0x7d1516d3ea5ca835, hi: 0xbfd8137f }),
        quoter: Some(Address { lo: 0x1bebb41c27ce5ab6, mid: 0xf90d607463bb33ea, hi: 0xb27308f9 }),
        swap_router: Some(Address { lo: 0x18e0157c05861564, mid: 0x0aece92de3edee1f, hi: 0xe592427a }),
        nft_descriptor: Some(Address { lo: 0xc3568932790a48ec, mid: 0x702b9986e82d421c, hi: 0x42b24a95 }),
        position_descriptor: Some(Address { lo: 0x3e72a606179294f3, mid: 0x5ffd8d1202311694, hi: 0x91ae842a }),
        transparent_upgradeable_proxy: Some(Address { lo: 0x87e52f5ec1c24785, mid: 0x80ea46401049e925, hi: 0xee6a57ec }),
        position_manager: Some(Address { lo: 0x7abdd847ab11fe88, mid: 0xa4522e871399cd71, hi: 0xc36442b4 }),
        v3_migrator: Some(Address { lo: 0x272c41cc0df92b34, mid: 0x708357803b5a882d, hi: 0xa5644e29 }),
        quoter_v2: Some(Address { lo: 0xb21bf9697530b21e, mid: 0xba17989e743c5f6c, hi: 0x61ffe014 }),
        swap_router_02: Some(Address { lo: 0xe0e4c7bd8665fc45, mid: 0x33fb72a70ecdf485, hi: 0x68b34658 }),
        permit2: Some(Address { lo: 0xdee9f6b43ac78ba3, mid: 0x0022d473030f116d, hi: 0x00000000 }),
        universal_router: Some(Address { lo: 0x05d03f95e1dba8af, mid: 0xc07d91d95644aedd, hi: 0x66a9893c }),
        v3_staker: Some(Address { lo: 0x46bd8c0867c6fe65, mid: 0x3ba50bd61336e0c4, hi: 0xe3413946 }),
    }
}

/// Builds the mainnet record.
pub fn uniswap_v3_constants_mainnet() -> (r: UniswapV3Constants)
    ensures
        r == spec_uniswap_v3_constants_mainnet(),
{
    UniswapV3Constants {
        factory: Address { lo: 0x9f267346ea31f984, mid: 0x8ad98523631ae4a5, hi: 0x1f98431c },
        multicall: Some(Address { lo: 0x46b32eb19261f984, mid: 0x57620b543a52e61c, hi: 0x1f984157 }),
        multicall2: Some(Address { lo: 0x0482f4739beed696, mid: 0x93dc8f9c48aad877, hi: 0x5ba1e126 }),
        proxy_admin: Some(Address { lo: 0xf9ca1bdab2e90cf2, mid: 0x6e010e7e680ba186, hi: 0xb753548f }),
        tick_lens: Some(Address { lo: 0x23914859ec47f573, mid: 0x7d1516d3ea5ca835, hi: 0xbfd8137f }),
        quoter: Some(Address { lo: 0x1bebb41c27ce5ab6, mid: 0xf90d607463bb33ea, hi: 0xb27308f9 }),
        swap_router: Some(Address { lo: 0x18e0157c05861564, mid: 0x0aece92de3edee1f, hi: 0xe592427a }),
        nft_descriptor: Some(Address { lo: 0xc3568932790a48ec, mid: 0x702b9986e82d421c, hi: 0x42b24a95 }),
        position_descriptor: Some(Address { lo: 0x3e72a606179294f3, mid: 0x5ffd8d1202311694, hi: 0x91ae842a }),
        transparent_upgradeable_proxy: Some(Address { lo: 0x87e52f5ec1c24785, mid: 0x80ea46401049e925, hi: 0xee6a57ec }),
        position_manager: Some(Address { lo: 0x7abdd847ab11fe88, mid: 0xa4522e871399cd71, hi: 0xc36442b4 }),
        v3_migrator: Some(Address { lo: 0x272c41cc0df92b34, mid: 0x708357803b5a882d, hi: 0xa5644e29 }),
        quoter_v2: Some(Address { lo: 0xb21bf9697530b21e, mid: 0xba17989e743c5f6c, hi: 0x61ffe014 }),
        swap_router_02: Some(Address { lo: 0xe0e4c7bd8665fc45, mid: 0x33fb72a70ecdf485, hi: 0x68b34658 }),
        permit2: Some(Address { lo: 0xdee9f6b43ac78ba3, mid: 0x0022d473030f116d, hi: 0x00000000 }),
        universal_router: Some(Address { lo: 0x05d03f95e1dba8af, mid: 0xc07d91d95644aedd, hi: 0x66a9893c }),
        v3_staker: Some(Address { lo: 0x46bd8c0867c6fe65, mid: 0x3ba50bd61336e0c4, hi: 0xe3413946 }),
    }
}

/// The UniswapV3Constants record of the sepolia testnet chain.
pub open spec fn spec_uniswap_v3_constants_sepolia_testnet() -> UniswapV3Constants {
    UniswapV3Constants {
        factory: Address { lo: 0x528571c95c6dac1c, mid: 0x3f023bb0b980b67d, hi: 0x0227628f },
        multicall: None,
        multicall2: Some(Address { lo: 0x1d30e94832baad07, mid: 0xb21b359c8ee6f025, hi: 0xd7f33bcd }),
        proxy_admin: Some(Address { lo: 0x81dc888bf0a14b36, mid: 0xd44ec2b4b8243ebf, hi: 0x0b343475 }),
        tick_lens: None,
        quoter: None,
        swap_router: None,
        nft_descriptor: Some(Address { lo: 0xcc091e183e76697c, mid: 0x595d85fbfbc2a42e, hi: 0x3b5e3c5e }),
        position_descriptor: Some(Address { lo: 0x68cbca3d37de6207, mid: 0x982c69ad20a57f1e, hi: 0x5be4daa6 }),
        transparent_upgradeable_proxy: None,
        position_manager: Some(Address { lo: 0x3655c799b22cda52, mid: 0x71e1c677a632429e, hi: 0x12385360 }),
        v3_migrator: Some(Address { lo: 0x140094b6acbe8b15, mid: 0x2cf005cec8bd85df, hi: 0x72900418 }),
        quoter_v2: Some(Address { lo: 0x1dd5ba1888cf2fb3, mid: 0x345f45b75f817959, hi: 0xed1f6473 }),
        swap_router_02: Some(Address { lo: 0x7c3b9c650f7ae48e, mid: 0xfb09eefc5a80d6e8, hi: 0x3bfa4769 }),
        permit2: Some(Address { lo: 0xdee9f6b43ac78ba3, mid: 0x0022d473030f116d, hi: 0x00000000 }),
        universal_router: Some(Address { lo: 0x7599bb04e4bdf98b, mid: 0x9751398bbfa63ad6, hi: 0x3a9d48ab }),
        v3_staker: None,
    }
}

/// Builds the sepolia testnet record.
pub fn uniswap_v3_constants_sepolia_testnet() -> (r: UniswapV3Constants)
    ensures
        r == spec_uniswap_v3_constants_sepolia_testnet(),
{
    UniswapV3Constants {
        factory: Address { lo: 0x528571c95c6dac1c, mid: 0x3f023bb0b980b67d, hi: 0x0227628f },
        multicall: None,
        multicall2: Some(Address { lo: 0x1d30e94832baad07, mid: 0xb21b359c8ee6f025, hi: 0xd7f33bcd }),
        proxy_admin: Some(Address { lo: 0x81dc888bf0a14b36, mid: 0xd44ec2b4b8243ebf, hi: 0x0b343475 }),
        tick_lens: None,
        quoter: None,
        swap_router: None,
        nft_descriptor: Some(Address { lo: 0xcc091e183e76697c, mid: 0x595d85fbfbc2a42e, hi: 0x3b5e3c5e }),
        position_descriptor: Some(Address { lo: 0x68cbca3d37de6207, mid: 0x982c69ad20a57f1e, hi: 0x5be4daa6 }),
        transparent_upgradeable_proxy: None,
        position_manager: Some(Address { lo: 0x3655c799b22cda52, mid: 0x71e1c677a632429e, hi: 0x12385360 }),
        v3_migrator: Some(Address { lo: 0x140094b6acbe8b15, mid: 0x2cf005cec8bd85df, hi: 0x72900418 }),
        quoter_v2: Some(Address { lo: 0x1dd5ba1888cf2fb3, mid: 0x345f45b75f817959, hi: 0xed1f6473 }),
        swap_router_02: Some(Address { lo: 0x7c3b9c650f7ae48e, mid: 0xfb09eefc5a80d6e8, hi: 0x3bfa4769 }),
        permit2: Some(Address { lo: 0xdee9f6b43ac78ba3, mid: 0x0022d473030f116d, hi: 0x00000000 }),
        universal_router: Some(Address { lo: 0x7599bb04e4bdf98b, mid: 0x9751398bbfa63ad6, hi: 0x3a9d48ab }),
        v3_staker: None,
    }
}

/// The UniswapV3Constants record of the base mainnet chain.
pub open spec fn spec_uniswap_v3_constants_base_mainnet() -> UniswapV3Constants {
    UniswapV3Constants {
        factory: Address { lo: 0x026d694621f6fdfd, mid: 0xc17869897dce68ed, hi: 0x33128a8f },
        multicall: Some(Address { lo: 0x5d168e941abd0693, mid: 0x1c49331a94dd6275, hi: 0x091e99cb }),
        multicall2: None,
        proxy_admin: Some(Address { lo: 0x7c7c98efd9621fa9, mid: 0x224af5ef9c2e7dda, hi: 0x3334d83e }),
        tick_lens: Some(Address { lo: 0x8c23ac2991c9ac6d, mid: 0xc75d43c82520ed99, hi: 0x0cdee061 }),
        quoter: None,
        swap_router: None,
        nft_descriptor: Some(Address { lo: 0x82652a8d84577d9f, mid: 0xd35670d4acbd27af, hi: 0xf9d1077f }),
        position_descriptor: Some(Address { lo: 0xf7b560b2d6401009, mid: 0xedc33efd6109c4ce, hi: 0x4f225937 }),
        transparent_upgradeable_proxy: Some(Address { lo: 0x3ccecf5cb7121463, mid: 0xf85d0a2bbed973d8, hi: 0x4615c383 }),
        position_manager: Some(Address { lo: 0x2e919cf822ed34f1, mid: 0x2c04bf3beef7beb7, hi: 0x03a520b3 }),
        v3_migrator: Some(Address { lo: 0xc07f7577e7acd2d7, mid: 0xee3adfca73b0ef17, hi: 0x23cf10b1 }),
        quoter_v2: Some(Address { lo: 0xab261cd16335b76a, mid: 0x1374240ce5f1b871, hi: 0x3d4e44eb }),
        swap_router_02: Some(Address { lo: 0xc0b26f421741e481, mid: 0x2603336e57b271c5, hi: 0x2626664c }),
        permit2: Some(Address { lo: 0xdee9f6b43ac78ba3, mid: 0x0022d473030f116d, hi: 0x00000000 }),
        universal_router: Some(Address { lo: 0x8a184ab56d299b43, mid: 0x99212da76ad31617, hi: 0x6ff5693b }),
        v3_staker: Some(Address { lo: 0xb9f3676d2425c3c1, mid: 0x27829fefa1493e1f, hi: 0x42be4d65 }),
    }
}

/// Builds the base mainnet record.
pub fn uniswap_v3_constants_base_mainnet() -> (r: UniswapV3Constants)
    ensures
        r == spec_uniswap_v3_constants_base_mainnet(),
{
    UniswapV3Constants {
        factory: Address { lo: 0x026d694621f6fdfd, mid: 0xc17869897dce68ed, hi: 0x33128a8f },
        multicall: Some(Address { lo: 0x5d168e941abd0693, mid: 0x1c49331a94dd6275, hi: 0x091e99cb }),
        multicall2: None,
        proxy_admin: Some(Address { lo: 0x7c7c98efd9621fa9, mid: 0x224af5ef9c2e7dda, hi: 0x3334d83e }),
        tick_lens: Some(Address { lo: 0x8c23ac2991c9ac6d, mid: 0xc75d43c82520ed99, hi: 0x0cdee061 }),
        quoter: None,
        swap_router: None,
        nft_descriptor: Some(Address { lo: 0x82652a8d84577d9f, mid: 0xd35670d4acbd27af, hi: 0xf9d1077f }),
        position_descriptor: Some(Address { lo: 0xf7b560b2d6401009, mid: 0xedc33efd6109c4ce, hi: 0x4f225937 }),
        transparent_upgradeable_proxy: Some(Address { lo: 0x3ccecf5cb7121463, mid: 0xf85d0a2bbed973d8, hi: 0x4615c383 }),
        position_manager: Some(Address { lo: 0x2e919cf822ed34f1, mid: 0x2c04bf3beef7beb7, hi: 0x03a520b3 }),
        v3_migrator: Some(Address { lo: 0xc07f7577e7acd2d7, mid: 0xee3adfca73b0ef17, hi: 0x23cf10b1 }),
        quoter_v2: Some(Address { lo: 0xab261cd16335b76a, mid: 0x1374240ce5f1b871, hi: 0x3d4e44eb }),
        swap_router_02: Some(Address { lo: 0xc0b26f421741e481, mid: 0x2603336e57b271c5, hi: 0x2626664c }),
        permit2: Some(Address { lo: 0xdee9f6b43ac78ba3, mid: 0x0022d473030f116d, hi: 0x00000000 }),
        universal_router: Some(Address { lo: 0x8a184ab56d299b43, mid: 0x99212da76ad31617, hi: 0x6ff5693b }),
        v3_staker: Some(Address { lo: 0xb9f3676d2425c3c1, mid: 0x27829fefa1493e1f, hi: 0x42be4d65 }),
    }
}

/// The UniswapV3Constants record of the unichain mainnet chain.
pub open spec fn spec_uniswap_v3_constants_unichain_mainnet() -> UniswapV3Constants {
    UniswapV3Constants {
        factory: Address { lo: 0x0000000000000003, mid: 0x0000000000000000, hi: 0x1f984000 },
        multicall: Some(Address { lo: 0xbc966960ccc54f0b, mid: 0x733e7d45184be3a1, hi: 0xb7610f9b }),
        multicall2: None,
        proxy_admin: None,
        tick_lens: Some(Address { lo: 0xaa81457b66cbe443, mid: 0x66ab8d8ad4c9f61a, hi: 0xd5d76fa1 }),
        quoter: None,
        swap_router: None,
        nft_descriptor: Some(Address { lo: 0xc6ec16d4846a2004, mid: 0x8ab68ffd0e6e17fa, hi: 0x0dfa04b2 }),
        position_descriptor: None,
        transparent_upgradeable_proxy: None,
        position_manager: Some(Address { lo: 0x3e54041d743c46e9, mid: 0xa7e8e791dafc4408, hi: 0x943e6e07 }),
        v3_migrator: Some(Address { lo: 0x112d5ef25e5b60dc, mid: 0xf306b1aaf02ae6ba, hi: 0xb9d0c246 }),
        quoter_v2: Some(Address { lo: 0xa19c3538b9fa7658, mid: 0xf83e99f7bb2852b6, hi: 0x385a5cf5 }),
        swap_router_02: Some(Address { lo: 0x6ba96c62da12ff9c, mid: 0xde49d0fe4a9c4263, hi: 0x73855d06 }),
        permit2: None,
        universal_router: None,
        v3_staker: None,
    }
}

/// Builds the unichain mainnet record.
pub fn uniswap_v3_constants_unichain_mainnet() -> (r: UniswapV3Constants)
    ensures
        r == spec_uniswap_v3_constants_unichain_mainnet(),
{
    UniswapV3Constants {
        factory: Address { lo: 0x0000000000000003, mid: 0x0000000000000000, hi: 0x1f984000 },
        multicall: Some(Address { lo: 0xbc966960ccc54f0b, mid: 0x733e7d45184be3a1, hi: 0xb7610f9b }),
        multicall2: None,
        proxy_admin: None,
        tick_lens: Some(Address { lo: 0xaa81457b66cbe443, mid: 0x66ab8d8ad4c9f61a, hi: 0xd5d76fa1 }),
        quoter: None,
        swap_router: None,
        nft_descriptor: Some(Address { lo: 0xc6ec16d4846a2004, mid: 0x8ab68ffd0e6e17fa, hi: 0x0dfa04b2 }),
        position_descriptor: None,
        transparent_upgradeable_proxy: None,
        position_manager: Some(Address { lo: 0x3e54041d743c46e9, mid: 0xa7e8e791dafc4408, hi: 0x943e6e07 }),
        v3_migrator: Some(Address { lo: 0x112d5ef25e5b60dc, mid: 0xf306b1aaf02ae6ba, hi: 0xb9d0c246 }),
        quoter_v2: Some(Address { lo: 0xa19c3538b9fa7658, mid: 0xf83e99f7bb2852b6, hi: 0x385a5cf5 }),
        swap_router_02: Some(Address { lo: 0x6ba96c62da12ff9c, mid: 0xde49d0fe4a9c4263, hi: 0x73855d06 }),
        permit2: None,
        universal_router: None,
        v3_staker: None,
    }
}

impl UniswapV3Constants {
    /// The registry entry for a chain id, or `None` where the chain is
    /// unsupported.
    pub fn by_chain(chain_id: u64) -> (r: Option<Self>)
        ensures
            r == (if chain_id == 1 { Some(spec_uniswap_v3_constants_mainnet()) } else if chain_id == 130 { Some(spec_uniswap_v3_constants_unichain_mainnet()) } else if chain_id == 8453 { Some(spec_uniswap_v3_constants_base_mainnet()) } else if chain_id == 11155111 { Some(spec_uniswap_v3_constants_sepolia_testnet()) } else { None::<UniswapV3Constants> }),
    {
        match chain_id {
            1 => Some(uniswap_v3_constants_mainnet()),
            130 => Some(uniswap_v3_constants_unichain_mainnet()),
            8453 => Some(uniswap_v3_constants_base_mainnet()),
            11155111 => Some(uniswap_v3_constants_sepolia_testnet()),
            _ => None,
        }
    }

    /// The `factory` entry.
    pub fn factory(&self) -> (r: Address)
        ensures
            r == self.factory,
    {
        self.factory
    }

    /// The `multicall` entry.
    pub fn multicall(&self) -> (r: Option<Address>)
        ensures
            r == self.multicall,
    {
        self.multicall
    }

    /// The `multicall2` entry.
    pub fn multicall2(&self) -> (r: Option<Address>)
        ensures
            r == self.multicall2,
    {
        self.multicall2
    }

    /// The `proxy_admin` entry.
    pub fn proxy_admin(&self) -> (r: Option<Address>)
        ensures
            r == self.proxy_admin,
    {
        self.proxy_admin
    }

    /// The `tick_lens` entry.
    pub fn tick_lens(&self) -> (r: Option<Address>)
        ensures
            r == self.tick_lens,
    {
        self.tick_lens
    }

    /// The `quoter` entry.
    pub fn quoter(&self) -> (r: Option<Address>)
        ensures
            r == self.quoter,
    {
        self.quoter
    }

    /// The `swap_router` entry.
    pub fn swap_router(&self) -> (r: Option<Address>)
        ensures
            r == self.swap_router,
    {
        self.swap_router
    }

    /// The `nft_descriptor` entry.
    pub fn nft_descriptor(&self) -> (r: Option<Address>)
        ensures
            r == self.nft_descriptor,
    {
        self.nft_descriptor
    }

    /// The `position_descriptor` entry.
    pub fn position_descriptor(&self) -> (r: Option<Address>)
        ensures
            r == self.position_descriptor,
    {
        self.position_descriptor
    }

    /// The `transparent_upgradeable_proxy` entry.
    pub fn transparent_upgradeable_proxy(&self) -> (r: Option<Address>)
        ensures
            r == self.transparent_upgradeable_proxy,
    {
        self.transparent_upgradeable_proxy
    }

    /// The `position_manager` entry.
    pub fn position_manager(&self) -> (r: Option<Address>)
        ensures
            r == self.position_manager,
    {
        self.position_manager
    }

    /// The `v3_migrator` entry.
    pub fn v3_migrator(&self) -> (r: Option<Address>)
        ensures
            r == self.v3_migrator,
    {
        self.v3_migrator
    }

    /// The `quoter_v2` entry.
    pub fn quoter_v2(&self) -> (r: Option<Address>)
        ensures
            r == self.quoter_v2,
    {
        self.quoter_v2
    }

    /// The `swap_router_02` entry.
    pub fn swap_router_02(&self) -> (r: Option<Address>)
        ensures
            r == self.swap_router_02,
    {
        self.swap_router_02
    }

    /// The `permit2` entry.
    pub fn permit2(&self) -> (r: Option<Address>)
        ensures
            r == self.permit2,
    {
        self.permit2
    }

    /// The `universal_router` entry.
    pub fn universal_router(&self) -> (r: Option<Address>)
        ensures
            r == self.universal_router,
    {
        self.universal_router
    }

    /// The `v3_staker` entry.
    pub fn v3_staker(&self) -> (r: Option<Address>)
        ensures
            r == self.v3_staker,
    {
        self.v3_staker
    }
}

} // verus!
