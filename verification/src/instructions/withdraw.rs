use vstd::prelude::*;

use crate::error::AmmError;
use crate::laws::{lemma_withdraw_keeps_share_value, lemma_withdraw_pays_rounded_down_share};
use crate::math::{floor_div, floor_share};
use crate::state::Config;

verus! {

/// What removing liquidity reads: the pool configuration, the supply of the
/// LP token and the two vault balances.
#[derive(Debug, Clone, Copy)]
pub struct Withdraw {
    pub config: Config,
    /// The supply of the LP mint.
    pub lp_supply: u64,
    /// The balance of the pool's x vault.
    pub vault_x: u64,
    /// The balance of the pool's y vault.
    pub vault_y: u64,
}

/// The token movements of an accepted withdrawal: `burn` LP tokens are burnt
/// from the user first, then `x` and `y` go from the vaults to the user.
#[derive(Debug, Clone, Copy, PartialEq, Eq, Structural)]
pub struct WithdrawPlan {
    pub burn: u64,
    pub x: u64,
    pub y: u64,
}

/// The outcome of burning `amount` LP tokens with slippage floors `min_x`,
/// `min_y`: the proportional share of each vault, rounded down so the pool
/// keeps the remainder, or the first check that refuses it.
pub open spec fn withdraw_outcome(
    locked: bool,
    supply: u64,
    vault_x: u64,
    vault_y: u64,
    amount: u64,
    min_x: u64,
    min_y: u64,
) -> Result<(u64, u64), AmmError> {
    if locked {
        Err(AmmError::PoolLocked)
    } else if amount == 0 {
        Err(AmmError::ZeroAmount)
    } else if supply == 0 {
        Err(AmmError::NoLiquidity)
    } else {
        let x = floor_share(amount as int, vault_x as int, supply as int);
        let y = floor_share(amount as int, vault_y as int, supply as int);
        if x > u64::MAX || y > u64::MAX {
            Err(AmmError::Overflow)
        } else if x == 0 || y == 0 {
            Err(AmmError::InvalidOutput)
        } else if x < min_x || y < min_y {
            Err(AmmError::SlippageExceeded)
        } else {
            Ok((x as u64, y as u64))
        }
    }
}

impl Withdraw {
    /// Decides a withdrawal of `amount` LP tokens with slippage floors `min_x`, `min_y`.
    pub fn withdraw(&self, amount: u64, min_x: u64, min_y: u64) -> (res: Result<WithdrawPlan, AmmError>)
        ensures
            match withdraw_outcome(self.config.locked, self.lp_supply, self.vault_x, self.vault_y, amount, min_x, min_y) {
                Ok((x, y)) => res == Ok::<WithdrawPlan, AmmError>(WithdrawPlan { burn: amount, x, y }),
                Err(e) => res == Err::<WithdrawPlan, AmmError>(e),
            },
            res matches Ok(plan) ==> {
                &&& plan.burn == amount
                &&& 0 < plan.x && min_x <= plan.x
                &&& 0 < plan.y && min_y <= plan.y
                &&& plan.x * self.lp_supply <= amount * self.vault_x
                &&& plan.y * self.lp_supply <= amount * self.vault_y
                &&& amount <= self.lp_supply ==> plan.x <= self.vault_x && plan.y <= self.vault_y
                &&& amount * self.vault_x < (plan.x + 1) * self.lp_supply
                &&& amount * self.vault_y < (plan.y + 1) * self.lp_supply
            },
            ({
                let s = self.lp_supply;
                let fx = amount * self.vault_x / (s as int);
                let fy = amount * self.vault_y / (s as int);
                !self.config.locked && amount > 0 && s > 0 ==> {
                    &&& 0 < fx <= u64::MAX && 0 < fy <= u64::MAX && fx >= min_x && fy >= min_y
                        ==> res == Ok::<WithdrawPlan, AmmError>(WithdrawPlan { burn: amount, x: fx as u64, y: fy as u64 })
                    &&& res == Err::<WithdrawPlan, AmmError>(AmmError::Overflow) ==> fx > u64::MAX || fy > u64::MAX
                }
            }),
            res == Err::<WithdrawPlan, AmmError>(AmmError::Overflow) ==> !self.config.locked && amount > 0 && self.lp_supply > 0,
    {
        proof {
            if self.lp_supply > 0 && amount > 0 {
                lemma_withdraw_pays_rounded_down_share(self.lp_supply, self.vault_x, self.vault_y, amount, min_x, min_y);
            }
        }
        if self.config.locked {
            return Err(AmmError::PoolLocked);
        }
        if !(amount > 0) {
            return Err(AmmError::ZeroAmount);
        }
        let supply = self.lp_supply;
        if !(supply > 0) {
            return Err(AmmError::NoLiquidity);
        }
        proof {
            assert(amount * self.vault_x <= u64::MAX * u64::MAX) by (nonlinear_arith)
                requires amount <= u64::MAX, self.vault_x <= u64::MAX;
            assert(amount * self.vault_y <= u64::MAX * u64::MAX) by (nonlinear_arith)
                requires amount <= u64::MAX, self.vault_y <= u64::MAX;
        }
        let x = match floor_div(amount as u128, self.vault_x as u128, supply as u128) {
            Ok(v) => v,
            Err(e) => return Err(e),
        };
        let y = match floor_div(amount as u128, self.vault_y as u128, supply as u128) {
            Ok(v) => v,
            Err(e) => return Err(e),
        };
        if !(x > 0 && y > 0) {
            return Err(AmmError::InvalidOutput);
        }
        if !(x >= min_x && y >= min_y) {
            return Err(AmmError::SlippageExceeded);
        }
        proof {
            lemma_withdraw_keeps_share_value(supply, self.vault_x, self.vault_y, amount, min_x, min_y, x, y);
        }
        Ok(WithdrawPlan { burn: amount, x, y })
    }
}

} // verus!
