use vstd::prelude::*;

use crate::constants::MAX_FEE_BPS;
use crate::error::AmmError;
use crate::laws::lemma_initialize_keeps_arguments;
use crate::state::{Config, Key};

verus! {

/// The accounts that creating a pool reads: the two token mints.
#[derive(Debug, Clone, Copy)]
pub struct Initialize {
    pub mint_x: Key,
    pub mint_y: Key,
}

/// The bump seeds found for the pool's two program-derived addresses.
#[derive(Debug, Clone, Copy)]
pub struct InitializeBumps {
    pub config: u8,
    pub mint_lp: u8,
}

/// The outcome of creating a pool: the fee is checked first, then the mints;
/// a valid request yields an unlocked configuration holding the arguments.
pub open spec fn initialize_outcome(
    mint_x: Key,
    mint_y: Key,
    seed: u64,
    fee: u16,
    authority: Option<Key>,
    bumps: InitializeBumps,
) -> Result<Config, AmmError> {
    if fee > 10_000 {
        Err(AmmError::InvalidFee)
    } else if mint_x@ == mint_y@ {
        Err(AmmError::IdenticalMints)
    } else {
        Ok(
            Config {
                seed,
                authority,
                mint_x,
                mint_y,
                fee,
                locked: false,
                config_bump: bumps.config,
                lp_bump: bumps.mint_lp,
            },
        )
    }
}

impl Initialize {
    /// Validates a new pool and builds its configuration. Creating the two
    /// vaults and storing the configuration is left to the caller.
    pub fn initialize(&self, seed: u64, fee: u16, authority: Option<Key>, bumps: &InitializeBumps) -> (res: Result<Config, AmmError>)
        ensures
            res == initialize_outcome(self.mint_x, self.mint_y, seed, fee, authority, *bumps),
            res matches Ok(config) ==> config.wf(),
            res is Ok <==> (fee <= 10_000 && self.mint_x@ != self.mint_y@),
            res matches Ok(config) ==> {
                &&& config.mint_x == self.mint_x
                &&& config.mint_y == self.mint_y
                &&& config.seed == seed
                &&& config.authority == authority
                &&& config.fee == fee
                &&& !config.locked
                &&& config.config_bump == bumps.config
                &&& config.lp_bump == bumps.mint_lp
            },
    {
        proof {
            lemma_initialize_keeps_arguments(self.mint_x, self.mint_y, seed, fee, authority, *bumps);
        }
        if fee > MAX_FEE_BPS {
            return Err(AmmError::InvalidFee);
        }
        if self.mint_x.same_as(&self.mint_y) {
            return Err(AmmError::IdenticalMints);
        }
        Ok(
            Config {
                seed,
                authority,
                mint_x: self.mint_x,
                mint_y: self.mint_y,
                fee,
                locked: false,
                config_bump: bumps.config,
                lp_bump: bumps.mint_lp,
            },
        )
    }
}

} // verus!
