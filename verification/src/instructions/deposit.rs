use vstd::prelude::*;

use crate::error::AmmError;
use crate::laws::{lemma_deposit_charges_rounded_up_share, lemma_deposit_keeps_share_value, lemma_first_deposit_pays_the_caps};
use crate::math::{ceil_div, ceil_share};
use crate::state::Config;

verus! {

/// What adding liquidity reads: the pool configuration, the supply of the
/// liquidity-provider (LP) token and the two vault balances.
#[derive(Debug, Clone, Copy)]
pub struct Deposit {
    pub config: Config,
    /// The supply of the LP mint.
    pub lp_supply: u64,
    /// The balance of the pool's x vault.
    pub vault_x: u64,
    /// The balance of the pool's y vault.
    pub vault_y: u64,
}

/// The token movements of an accepted deposit: `x` and `y` go from the user
/// to the vaults, and `lp` LP tokens are minted to the user.
#[derive(Debug, Clone, Copy, PartialEq, Eq, Structural)]
pub struct DepositPlan {
    pub x: u64,
    pub y: u64,
    pub lp: u64,
}

/// The outcome of asking for `amount` LP tokens while paying at most `max_x`
/// and `max_y`: the amounts of x and y to pay, or the first check that refuses it.
/// The first deposit into an empty pool pays exactly the caps and so sets the price;
/// later deposits pay the proportional share rounded up, in the pool's favour.
pub open spec fn deposit_outcome(
    locked: bool,
    supply: u64,
    vault_x: u64,
    vault_y: u64,
    amount: u64,
    max_x: u64,
    max_y: u64,
) -> Result<(u64, u64), AmmError> {
    if locked {
        Err(AmmError::PoolLocked)
    } else if amount == 0 {
        Err(AmmError::ZeroAmount)
    } else if supply == 0 {
        if max_x == 0 || max_y == 0 {
            Err(AmmError::ZeroAmount)
        } else {
            Ok((max_x, max_y))
        }
    } else {
        let x = ceil_share(amount as int, vault_x as int, supply as int);
        let y = ceil_share(amount as int, vault_y as int, supply as int);
        if x > u64::MAX || y > u64::MAX {
            Err(AmmError::Overflow)
        } else if x > max_x || y > max_y {
            Err(AmmError::SlippageExceeded)
        } else if x == 0 || y == 0 {
            Err(AmmError::ZeroAmount)
        } else {
            Ok((x as u64, y as u64))
        }
    }
}

proof fn lemma_ceil_share_no_wide_overflow(amount: u64, reserve: u64, supply: u64)
    requires
        supply > 0,
    ensures
        amount * reserve + supply - 1 <= u128::MAX,
{
    assert(amount * reserve <= u64::MAX * u64::MAX) by (nonlinear_arith)
        requires amount <= u64::MAX, reserve <= u64::MAX;
}

impl Deposit {
    /// Decides a deposit of `amount` LP tokens with slippage caps `max_x`, `max_y`.
    pub fn deposit(&self, amount: u64, max_x: u64, max_y: u64) -> (res: Result<DepositPlan, AmmError>)
        ensures
            match deposit_outcome(self.config.locked, self.lp_supply, self.vault_x, self.vault_y, amount, max_x, max_y) {
                Ok((x, y)) => res == Ok::<DepositPlan, AmmError>(DepositPlan { x, y, lp: amount }),
                Err(e) => res == Err::<DepositPlan, AmmError>(e),
            },
            res matches Ok(plan) ==> {
                &&& 0 < plan.x <= max_x
                &&& 0 < plan.y <= max_y
                &&& plan.lp == amount
                &&& self.lp_supply > 0 ==> {
                    &&& plan.x * self.lp_supply >= amount * self.vault_x
                    &&& plan.y * self.lp_supply >= amount * self.vault_y
                    &&& (plan.x - 1) * self.lp_supply < amount * self.vault_x
                    &&& (plan.y - 1) * self.lp_supply < amount * self.vault_y
                }
            },
            !self.config.locked && amount > 0 && self.lp_supply == 0 && max_x > 0 && max_y > 0
                ==> res == Ok::<DepositPlan, AmmError>(DepositPlan { x: max_x, y: max_y, lp: amount }),
            ({
                let s = self.lp_supply;
                let cx = (amount * self.vault_x + s - 1) / (s as int);
                let cy = (amount * self.vault_y + s - 1) / (s as int);
                !self.config.locked && amount > 0 && s > 0 ==> {
                    &&& 0 < cx <= max_x && 0 < cy <= max_y
                        ==> res == Ok::<DepositPlan, AmmError>(DepositPlan { x: cx as u64, y: cy as u64, lp: amount })
                    &&& res == Err::<DepositPlan, AmmError>(AmmError::Overflow) ==> cx > u64::MAX || cy > u64::MAX
                }
            }),
            res == Err::<DepositPlan, AmmError>(AmmError::Overflow) ==> !self.config.locked && amount > 0 && self.lp_supply > 0,
    {
        proof {
            if self.lp_supply > 0 && amount > 0 {
                lemma_deposit_charges_rounded_up_share(self.lp_supply, self.vault_x, self.vault_y, amount, max_x, max_y);
            }
            if amount > 0 && max_x > 0 && max_y > 0 {
                lemma_first_deposit_pays_the_caps(self.vault_x, self.vault_y, amount, max_x, max_y);
            }
        }
        if self.config.locked {
            return Err(AmmError::PoolLocked);
        }
        if !(amount > 0) {
            return Err(AmmError::ZeroAmount);
        }
        let supply = self.lp_supply;
        let (x, y) = if supply == 0 {
            if !(max_x > 0 && max_y > 0) {
                return Err(AmmError::ZeroAmount);
            }
            (max_x, max_y)
        } else {
            proof {
                lemma_ceil_share_no_wide_overflow(amount, self.vault_x, supply);
                lemma_ceil_share_no_wide_overflow(amount, self.vault_y, supply);
            }
            let x = match ceil_div(amount as u128, self.vault_x as u128, supply as u128) {
                Ok(v) => v,
                Err(e) => return Err(e),
            };
            let y = match ceil_div(amount as u128, self.vault_y as u128, supply as u128) {
                Ok(v) => v,
                Err(e) => return Err(e),
            };
            if !(x <= max_x && y <= max_y) {
                return Err(AmmError::SlippageExceeded);
            }
            (x, y)
        };
        if !(x > 0 && y > 0) {
            return Err(AmmError::ZeroAmount);
        }
        proof {
            if supply > 0 {
                lemma_deposit_keeps_share_value(supply, self.vault_x, self.vault_y, amount, max_x, max_y, x, y);
            }
        }
        Ok(DepositPlan { x, y, lp: amount })
    }
}

} // verus!
