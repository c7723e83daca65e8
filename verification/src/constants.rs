//! Fixed values of the treasury manager.

use vstd::prelude::*;

verus! {

/// The address of the treasury manager itself,
/// `Fg6PaFpoGXkYsidMpWTK6W2BeZ7FEfcYkg476zPFsLnS`. The addresses of the
/// deposit escrows are derived for it.
pub const ID: [u8; 32] = [
    218, 7, 92, 178, 255, 94, 198, 129, 118, 19, 222, 83, 11, 105, 42, 135,
    53, 71, 119, 105, 218, 71, 67, 12, 189, 129, 84, 51, 92, 74, 131, 39,
];

/// The auction house program, `formn3hJtt8gvVKxpCfzCJGuoz6CNUFcULFZW18iTpC`.
pub const FORMFN_AUCTION_HOUSE_PROGRAM_ID: [u8; 32] = [
    9, 241, 13, 172, 80, 62, 70, 184, 119, 15, 211, 101, 214, 164, 74, 228,
    65, 26, 34, 49, 5, 169, 157, 181, 80, 46, 140, 156, 204, 242, 241, 113,
];

/// The auction house program of the development network,
/// `devmBQyHHBPiLcuCqbWWRYxCG33ntAfPD5nXZeLd4eX`.
pub const FORMFN_AUCTION_HOUSE_DEVNET_PROGRAM_ID: [u8; 32] = [
    9, 99, 203, 17, 178, 202, 176, 203, 135, 101, 51, 255, 176, 203, 67, 242,
    218, 37, 108, 208, 84, 242, 136, 82, 221, 72, 195, 74, 245, 161, 77, 220,
];

/// The auction house program of the test network,
/// `jzmdMPJhm7Txb2RzYPte6Aj1QWqFarmjsJuWjk9m2wv`.
pub const FORMFN_AUCTION_HOUSE_TESTNET_PROGRAM_ID: [u8; 32] = [
    11, 3, 182, 205, 245, 101, 120, 0, 190, 32, 104, 109, 139, 115, 164, 42,
    89, 66, 63, 211, 128, 216, 173, 84, 15, 101, 238, 73, 116, 65, 31, 213,
];

/// The candy machine program, `gachaC2NGh63y4ogLK8xHLeB5ZFZ8ypDLXEQyKNm8sy`.
pub const FORMFN_CANDY_MACHINE_PROGRAM_ID: [u8; 32] = [
    10, 35, 169, 37, 172, 170, 89, 208, 49, 13, 60, 129, 217, 54, 121, 147,
    72, 112, 196, 228, 71, 146, 53, 161, 197, 62, 168, 182, 54, 99, 66, 120,
];

/// The mint that stands for the native currency,
/// `So11111111111111111111111111111111111111112`.
pub const NATIVE_MINT: [u8; 32] = [
    6, 155, 136, 87, 254, 171, 129, 132, 251, 104, 127, 99, 70, 24, 192, 53,
    218, 196, 57, 220, 26, 235, 59, 85, 152, 160, 240, 0, 0, 0, 0, 1,
];

/// The token program, `TokenkegQfeZyiNwAJbNbGKPFXCWuBvf9Ss623VQ5DA`.
pub const TOKEN_PROGRAM_ID: [u8; 32] = [
    6, 221, 246, 225, 215, 101, 161, 147, 217, 203, 225, 70, 206, 235, 121, 172,
    28, 180, 133, 237, 95, 91, 55, 145, 58, 140, 245, 133, 126, 255, 0, 169,
];

/// The seed prefix of the addresses derived for the treasury.
pub const PROGRAM_PREFIX: &'static str = "campaign_treasury_manager";

/// The whole of a campaign's funds, in basis points.
pub const ONE_HUNDRED_PERCENT_BASIS_POINTS: u16 = 10_000;

} // verus!
