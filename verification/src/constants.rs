use vstd::prelude::*;

verus! {

/// Fees are expressed in basis points out of this denominator.
pub const FEE_DENOMINATOR: u128 = 10_000;

/// The largest fee a pool may be created with (100%).
pub const MAX_FEE_BPS: u16 = 10_000;

/// Decimals of the liquidity-provider token mint.
pub const LP_DECIMALS: u8 = 6;

} // verus!

verus! {

/// The seed prefix of a pool's configuration address: the bytes of `config`.
pub const CONFIG_SEED: [u8; 6] = [99, 111, 110, 102, 105, 103];

/// The seed prefix of a pool's LP mint address: the bytes of `lp`.
pub const LP_SEED: [u8; 2] = [108, 112];

} // verus!
