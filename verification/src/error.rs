use vstd::prelude::*;

verus! {

/// Every way an instruction of the pool can be refused.
#[derive(Debug, Clone, Copy, PartialEq, Eq, Structural)]
pub enum AmmError {
    InvalidFee,
    IdenticalMints,
    PoolLocked,
    ZeroAmount,
    NoLiquidity,
    SlippageExceeded,
    Overflow,
    InvalidOutput,
}

impl AmmError {
    /// The human-readable message attached to each error.
    pub fn message(&self) -> (msg: &'static str)
        ensures
            match *self {
                AmmError::InvalidFee => msg@ == "Fee in basis points cannot exceed 10000 (100%)"@,
                AmmError::IdenticalMints => msg@ == "The two mints of a pool must be different"@,
                AmmError::PoolLocked => msg@ == "The pool is locked"@,
                AmmError::ZeroAmount => msg@ == "Amount must be greater than zero"@,
                AmmError::NoLiquidity => msg@ == "Pool has no liquidity"@,
                AmmError::SlippageExceeded => msg@ == "Slippage tolerance exceeded"@,
                AmmError::Overflow => msg@ == "Arithmetic overflow"@,
                AmmError::InvalidOutput => msg@ == "Computed output is invalid"@,
            },
    {
        match *self {
            AmmError::InvalidFee => "Fee in basis points cannot exceed 10000 (100%)",
            AmmError::IdenticalMints => "The two mints of a pool must be different",
            AmmError::PoolLocked => "The pool is locked",
            AmmError::ZeroAmount => "Amount must be greater than zero",
            AmmError::NoLiquidity => "Pool has no liquidity",
            AmmError::SlippageExceeded => "Slippage tolerance exceeded",
            AmmError::Overflow => "Arithmetic overflow",
            AmmError::InvalidOutput => "Computed output is invalid",
        }
    }
}

} // verus!
