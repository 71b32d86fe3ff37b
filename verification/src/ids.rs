//! Addresses that the market maker knows.

use crate::pubkey::Pubkey;
use vstd::prelude::*;

verus! {

/// Address of the market maker program:
/// `DxRXCM3egzfmcgBXYAt19xUewgnmrZ575XMwUQr8xQCG`.
pub const PROGRAM_ID: Pubkey = [
    192, 126, 233, 196, 252, 185, 51, 222, 255, 129, 109, 131, 10, 118, 136, 149, 141, 217, 93, 239,
    237, 14, 94, 71, 80, 151, 180, 160, 25, 237, 15, 177,
];

/// Address of the system program:
/// `11111111111111111111111111111111`.
pub const SYSTEM_PROGRAM_ID: Pubkey = [
    0, 0, 0, 0, 0, 0, 0, 0, 0, 0, 0, 0, 0, 0, 0, 0, 0, 0, 0, 0, 0, 0, 0, 0, 0, 0, 0, 0, 0, 0, 0, 0,
];

/// Address of the SPL Token program:
/// `TokenkegQfeZyiNwAJbNbGKPFXCWuBvf9Ss623VQ5DA`.
pub const TOKEN_PROGRAM_ID: Pubkey = [
    6, 221, 246, 225, 215, 101, 161, 147, 217, 203, 225, 70, 206, 235, 121, 172, 28, 180, 133, 237,
    95, 91, 55, 145, 58, 140, 245, 133, 126, 255, 0, 169,
];

/// Address of the rent sysvar:
/// `SysvarRent111111111111111111111111111111111`.
pub const RENT_SYSVAR: Pubkey = [
    6, 167, 213, 23, 25, 44, 92, 81, 33, 140, 201, 76, 61, 74, 241, 127, 88, 218, 238, 8, 155, 161,
    253, 68, 227, 219, 217, 138, 0, 0, 0, 0,
];

/// Address of the upgradeable loader:
/// `BPFLoaderUpgradeab1e11111111111111111111111`.
pub const UPGRADEABLE_LOADER_ID: Pubkey = [
    2, 168, 246, 145, 78, 136, 161, 176, 226, 16, 21, 62, 247, 99, 174, 43, 0, 194, 185, 61, 22,
    193, 36, 210, 192, 83, 122, 16, 4, 128, 0, 0,
];

/// The one account that may call `initialize`:
/// `GmaDrppBC7P5ARKV8g3djiwP89vz1jLK23V2GBjuAEGB`.
///
/// This is the test deployer, whose key comes from `DEPLOYER_SEED`. It has to be
/// replaced before any deployment that matters.
pub const EXPECTED_DEPLOYER: Pubkey = [
    234, 74, 108, 99, 226, 156, 82, 10, 190, 245, 80, 123, 19, 46, 197, 249, 149, 71, 118, 174, 190,
    190, 123, 146, 66, 30, 234, 105, 20, 70, 210, 44,
];

/// Seed of the test deployer's key.
pub const DEPLOYER_SEED: [u8; 32] = [
    7, 7, 7, 7, 7, 7, 7, 7, 7, 7, 7, 7, 7, 7, 7, 7, 7, 7, 7, 7, 7, 7, 7, 7, 7, 7, 7, 7, 7, 7, 7, 7,
];

} // verus!
