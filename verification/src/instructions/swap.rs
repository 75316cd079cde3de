use vstd::prelude::*;

use crate::error::AmmError;
use crate::laws::{lemma_swap_never_shrinks_product, lemma_swap_pays_the_curve};
use crate::math::{constant_product_out, curve_output, lemma_curve_output_bounds, lemma_after_fee_bounds};
use crate::state::{Config, Side};

verus! {

/// What a swap reads: the pool configuration and the two vault balances.
#[derive(Debug, Clone, Copy)]
pub struct Swap {
    pub config: Config,
    /// The balance of the pool's x vault.
    pub vault_x: u64,
    /// The balance of the pool's y vault.
    pub vault_y: u64,
}

/// The token movements of an accepted swap: `amount_in` of `side_in` goes
/// from the user to its vault, `amount_out` of `side_out` from its vault to the user.
#[derive(Debug, Clone, Copy, PartialEq, Eq, Structural)]
pub struct SwapPlan {
    pub side_in: Side,
    pub amount_in: u64,
    pub side_out: Side,
    pub amount_out: u64,
}

/// The outcome of a swap of `amount_in` against reserves `reserve_in`
/// (of the token paid) and `reserve_out` (of the token received): the
/// amount paid out, or the first check that refuses it.
pub open spec fn swap_outcome(
    locked: bool,
    fee: u16,
    reserve_in: u64,
    reserve_out: u64,
    amount_in: u64,
    min_out: u64,
) -> Result<u64, AmmError> {
    if locked {
        Err(AmmError::PoolLocked)
    } else if amount_in == 0 {
        Err(AmmError::ZeroAmount)
    } else if reserve_in == 0 || reserve_out == 0 {
        Err(AmmError::NoLiquidity)
    } else {
        let out = curve_output(amount_in as int, reserve_in as int, reserve_out as int, fee as int);
        if out == 0 || out >= reserve_out {
            Err(AmmError::InvalidOutput)
        } else if out < min_out {
            Err(AmmError::SlippageExceeded)
        } else {
            Ok(out as u64)
        }
    }
}

impl Swap {
    /// The reserve of the token paid in and of the token paid out.
    pub open spec fn reserves(&self, is_x: bool) -> (u64, u64) {
        if is_x {
            (self.vault_x, self.vault_y)
        } else {
            (self.vault_y, self.vault_x)
        }
    }

    /// Decides a swap: `is_x` pays x and receives y, otherwise pays y and
    /// receives x. Returns the two transfers to make, or why it is refused.
    pub fn swap(&self, is_x: bool, amount_in: u64, min_out: u64) -> (res: Result<SwapPlan, AmmError>)
        requires
            self.config.fee <= 10_000,
        ensures
            ({
                let (reserve_in, reserve_out) = self.reserves(is_x);
                match swap_outcome(self.config.locked, self.config.fee, reserve_in, reserve_out, amount_in, min_out) {
                    Ok(out) => res == Ok::<SwapPlan, AmmError>(SwapPlan {
                        side_in: Side::spec_from_is_x(is_x),
                        amount_in,
                        side_out: Side::spec_from_is_x(is_x).spec_opposite(),
                        amount_out: out,
                    }),
                    Err(e) => res == Err::<SwapPlan, AmmError>(e),
                }
            }),
            res matches Ok(plan) ==> {
                let (reserve_in, reserve_out) = self.reserves(is_x);
                &&& 0 < plan.amount_out < reserve_out
                &&& plan.amount_out >= min_out
                &&& plan.side_in != plan.side_out
                &&& (reserve_in + plan.amount_in) * (reserve_out - plan.amount_out) >= reserve_in * reserve_out
            },
            res != Err::<SwapPlan, AmmError>(AmmError::Overflow),
            ({
                let ri = if is_x { self.vault_x } else { self.vault_y };
                let ro = if is_x { self.vault_y } else { self.vault_x };
                let a = amount_in * (10_000 - self.config.fee) / 10_000;
                let out = ro * a / (ri + a);
                &&& !self.config.locked && amount_in > 0 && ri > 0 && ro > 0 && 0 < out < ro && out >= min_out
                    ==> res == Ok::<SwapPlan, AmmError>(SwapPlan {
                        side_in: if is_x { Side::X } else { Side::Y },
                        amount_in,
                        side_out: if is_x { Side::Y } else { Side::X },
                        amount_out: out as u64,
                    })
                &&& res is Err ==> self.config.locked || amount_in == 0 || ri == 0 || ro == 0 || out == 0
                    || out >= ro || out < min_out
            }),
    {
        proof {
            let (ri, ro) = self.reserves(is_x);
            lemma_swap_pays_the_curve(self.config.locked, self.config.fee, ri, ro, amount_in, min_out);
        }
        if self.config.locked {
            return Err(AmmError::PoolLocked);
        }
        if amount_in == 0 {
            return Err(AmmError::ZeroAmount);
        }
        let (reserve_in, reserve_out) = if is_x {
            (self.vault_x, self.vault_y)
        } else {
            (self.vault_y, self.vault_x)
        };
        if !(reserve_in > 0 && reserve_out > 0) {
            return Err(AmmError::NoLiquidity);
        }
        proof {
            lemma_after_fee_bounds(amount_in as int, self.config.fee as int);
            lemma_curve_output_bounds(amount_in as int, reserve_in as int, reserve_out as int, self.config.fee as int);
        }
        let amount_out = match constant_product_out(amount_in, reserve_in, reserve_out, self.config.fee) {
            Ok(v) => v,
            Err(e) => return Err(e),
        };
        if !(amount_out > 0 && amount_out < reserve_out) {
            return Err(AmmError::InvalidOutput);
        }
        if !(amount_out >= min_out) {
            return Err(AmmError::SlippageExceeded);
        }
        proof {
            lemma_swap_never_shrinks_product(
                self.config.locked,
                self.config.fee,
                reserve_in,
                reserve_out,
                amount_in,
                min_out,
                amount_out,
            );
        }
        let side_in = Side::from_is_x(is_x);
        let side_out = side_in.opposite();
        Ok(SwapPlan { side_in, amount_in, side_out, amount_out })
    }
}

} // verus!
