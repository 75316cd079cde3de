use amm::error::AmmError;
use amm::instructions::deposit::{Deposit, DepositPlan};
use amm::instructions::initialize::{Initialize, InitializeBumps};
use amm::instructions::swap::{Swap, SwapPlan};
use amm::instructions::withdraw::{Withdraw, WithdrawPlan};
use amm::state::{Config, Key, Side};

// helpers

fn key(b: u8) -> Key {
    Key { bytes: [b; 32] }
}

// the same curve as the pool, written out, to compute expected values
fn expected_out(amount_in: u64, reserve_in: u64, reserve_out: u64, fee_bps: u16) -> u64 {
    let amount_in = amount_in as u128;
    let in_after_fee = amount_in * (10_000 - fee_bps as u128) / 10_000;
    let out = (reserve_out as u128 * in_after_fee) / (reserve_in as u128 + in_after_fee);
    out as u64
}

fn expected_deposit_ceil(amount: u64, reserve: u64, supply: u64) -> u64 {
    let n = amount as u128 * reserve as u128;
    ((n + supply as u128 - 1) / supply as u128) as u64
}

fn expected_withdraw_floor(amount: u64, reserve: u64, supply: u64) -> u64 {
    (amount as u128 * reserve as u128 / supply as u128) as u64
}

// a pool seeded by a first deposit: returns (config, supply, vault_x, vault_y)
fn liquid_pool(fee_bps: u16, init_x: u64, init_y: u64, lp_amount: u64) -> (Config, u64, u64, u64) {
    let init = Initialize { mint_x: key(1), mint_y: key(2) };
    let cfg = init
        .initialize(42, fee_bps, None, &InitializeBumps { config: 254, mint_lp: 253 })
        .unwrap();
    let first = Deposit { config: cfg, lp_supply: 0, vault_x: 0, vault_y: 0 };
    let plan = first.deposit(lp_amount, init_x, init_y).unwrap();
    (cfg, plan.lp, plan.x, plan.y)
}

// scenarios of the pool

#[test]
fn test_initialize() {
    let init = Initialize { mint_x: key(1), mint_y: key(2) };
    let cfg = init
        .initialize(1, 30, None, &InitializeBumps { config: 255, mint_lp: 250 })
        .expect("config not created");
    assert_eq!(cfg.seed, 1);
    assert!(cfg.authority.is_none(), "authority should be None");
    assert_eq!(cfg.mint_x, key(1));
    assert_eq!(cfg.mint_y, key(2));
    assert_eq!(cfg.fee, 30);
    assert!(!cfg.locked, "pool should start unlocked");
    assert_eq!(cfg.config_bump, 255);
    assert_eq!(cfg.lp_bump, 250);
}

#[test]
fn test_deposit_initial_liquidity() {
    let (_cfg, supply, vault_x, vault_y) = liquid_pool(0, 1_000_000, 4_000_000, 1_000_000);
    // first deposit = exactly the caps, LP minted = requested amount
    assert_eq!(vault_x, 1_000_000);
    assert_eq!(vault_y, 4_000_000);
    assert_eq!(supply, 1_000_000);
}

#[test]
fn test_deposit_proportional() {
    let (cfg, supply, vault_x, vault_y) = liquid_pool(0, 1_000_000, 4_000_000, 1_000_000);
    let want_x = expected_deposit_ceil(500_000, 1_000_000, supply);
    let want_y = expected_deposit_ceil(500_000, 4_000_000, supply);
    assert_eq!((want_x, want_y), (500_000, 2_000_000));

    let d = Deposit { config: cfg, lp_supply: supply, vault_x, vault_y };
    let plan = d.deposit(500_000, want_x, want_y).unwrap();
    assert_eq!(plan, DepositPlan { x: want_x, y: want_y, lp: 500_000 });
    assert_eq!(vault_x + plan.x, 1_500_000);
    assert_eq!(vault_y + plan.y, 6_000_000);
    assert_eq!(supply + plan.lp, 1_500_000);
}

#[test]
fn test_swap_x_for_y() {
    let fee = 100; // 1%
    let (cfg, _supply, vault_x, vault_y) = liquid_pool(fee, 1_000_000, 4_000_000, 1_000_000);
    let amount_in = 100_000u64;
    let want_out = expected_out(amount_in, 1_000_000, 4_000_000, fee);
    assert!(want_out > 0);
    assert_eq!(want_out, 360_327);

    let s = Swap { config: cfg, vault_x, vault_y };
    let plan = s.swap(true, amount_in, want_out).unwrap();
    assert_eq!(
        plan,
        SwapPlan { side_in: Side::X, amount_in, side_out: Side::Y, amount_out: want_out }
    );
    assert_eq!(vault_x + amount_in, 1_000_000 + amount_in);
    assert_eq!(vault_y - plan.amount_out, 4_000_000 - want_out);

    // k must not shrink (fees grow it)
    let k_before = 1_000_000u128 * 4_000_000u128;
    let k_after = (vault_x + amount_in) as u128 * (vault_y - plan.amount_out) as u128;
    assert!(k_after >= k_before, "k must not decrease");
}

#[test]
fn test_swap_y_for_x() {
    let fee = 30;
    let (cfg, _supply, vault_x, vault_y) = liquid_pool(fee, 2_000_000, 2_000_000, 2_000_000);
    let amount_in = 250_000u64;
    let want_out = expected_out(amount_in, 2_000_000, 2_000_000, fee);
    assert_eq!(want_out, 221_629);

    let s = Swap { config: cfg, vault_x, vault_y };
    let plan = s.swap(false, amount_in, want_out).unwrap();
    assert_eq!(plan.side_in, Side::Y);
    assert_eq!(plan.side_out, Side::X);
    assert_eq!(plan.amount_in, amount_in);
    assert_eq!(plan.amount_out, want_out);
}

#[test]
fn test_withdraw() {
    let (cfg, supply, vault_x, vault_y) = liquid_pool(0, 1_000_000, 4_000_000, 1_000_000);
    let burn = 400_000u64;
    let want_x = expected_withdraw_floor(burn, 1_000_000, supply);
    let want_y = expected_withdraw_floor(burn, 4_000_000, supply);
    assert_eq!((want_x, want_y), (400_000, 1_600_000));

    let w = Withdraw { config: cfg, lp_supply: supply, vault_x, vault_y };
    let plan = w.withdraw(burn, want_x, want_y).unwrap();
    assert_eq!(plan, WithdrawPlan { burn, x: want_x, y: want_y });
    assert_eq!(supply - plan.burn, 600_000);
    assert_eq!(vault_x - plan.x, 1_000_000 - want_x);
    assert_eq!(vault_y - plan.y, 4_000_000 - want_y);
}

#[test]
fn test_initialize_rejects_high_fee() {
    let init = Initialize { mint_x: key(1), mint_y: key(2) };
    let r = init.initialize(7, 10_001, None, &InitializeBumps { config: 1, mint_lp: 2 });
    assert_eq!(r, Err(AmmError::InvalidFee));
}

#[test]
fn test_initialize_rejects_identical_mints() {
    let init = Initialize { mint_x: key(1), mint_y: key(1) };
    let r = init.initialize(8, 30, None, &InitializeBumps { config: 1, mint_lp: 2 });
    assert_eq!(r, Err(AmmError::IdenticalMints));
}

#[test]
fn test_deposit_rejects_zero_amount() {
    let (cfg, supply, vault_x, vault_y) = liquid_pool(0, 1_000_000, 4_000_000, 1_000_000);
    let d = Deposit { config: cfg, lp_supply: supply, vault_x, vault_y };
    assert_eq!(d.deposit(0, 1_000_000, 1_000_000), Err(AmmError::ZeroAmount));
}

#[test]
fn test_deposit_rejects_slippage() {
    let (cfg, supply, vault_x, vault_y) = liquid_pool(0, 1_000_000, 4_000_000, 1_000_000);
    let d = Deposit { config: cfg, lp_supply: supply, vault_x, vault_y };
    // cap y below the required 2M
    assert_eq!(d.deposit(500_000, 500_000, 1_000_000), Err(AmmError::SlippageExceeded));
}

#[test]
fn test_swap_rejects_zero_amount() {
    let (cfg, _supply, vault_x, vault_y) = liquid_pool(30, 1_000_000, 4_000_000, 1_000_000);
    let s = Swap { config: cfg, vault_x, vault_y };
    assert_eq!(s.swap(true, 0, 0), Err(AmmError::ZeroAmount));
}

#[test]
fn test_swap_rejects_slippage() {
    let fee = 30;
    let (cfg, _supply, vault_x, vault_y) = liquid_pool(fee, 1_000_000, 4_000_000, 1_000_000);
    let amount_in = 100_000u64;
    let real_out = expected_out(amount_in, 1_000_000, 4_000_000, fee);
    let s = Swap { config: cfg, vault_x, vault_y };
    // ask for more than the curve gives
    assert_eq!(s.swap(true, amount_in, real_out + 1), Err(AmmError::SlippageExceeded));
}

#[test]
fn test_withdraw_rejects_slippage() {
    let (cfg, supply, vault_x, vault_y) = liquid_pool(0, 1_000_000, 4_000_000, 1_000_000);
    // demand more x than the proportional share
    let want_x = expected_withdraw_floor(100_000, 1_000_000, 1_000_000);
    let w = Withdraw { config: cfg, lp_supply: supply, vault_x, vault_y };
    assert_eq!(w.withdraw(100_000, want_x + 1, 0), Err(AmmError::SlippageExceeded));
}
