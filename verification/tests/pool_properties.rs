use amm::constants::{CONFIG_SEED, FEE_DENOMINATOR, LP_SEED, MAX_FEE_BPS};
use amm::error::AmmError;
use amm::instructions::deposit::{Deposit, DepositPlan};
use amm::instructions::initialize::{Initialize, InitializeBumps};
use amm::instructions::swap::Swap;
use amm::instructions::withdraw::{Withdraw, WithdrawPlan};
use amm::math::{ceil_div, constant_product_out, floor_div};
use amm::seeds::{config_signer_seeds, lp_mint_seeds, seed_le_bytes};
use amm::state::{Config, Key, Side};

fn key(b: u8) -> Key {
    Key { bytes: [b; 32] }
}

fn config(fee: u16, locked: bool) -> Config {
    Config {
        seed: 7,
        authority: Some(key(9)),
        mint_x: key(1),
        mint_y: key(2),
        fee,
        locked,
        config_bump: 200,
        lp_bump: 201,
    }
}

// curve arithmetic

#[test]
fn curve_exact_value() {
    // after fee: 100_000 * 9_970 / 10_000 = 99_700; out = 4_000_000 * 99_700 / 1_099_700
    assert_eq!(constant_product_out(100_000, 1_000_000, 4_000_000, 30), Ok(362_644));
    assert_eq!(constant_product_out(1_000, 1_000, 1_000, 0), Ok(500));
}

#[test]
fn curve_full_fee_pays_nothing() {
    assert_eq!(constant_product_out(1_000_000, 10, 10, 10_000), Ok(0));
}

#[test]
fn curve_zero_divisor_is_overflow() {
    assert_eq!(constant_product_out(0, 0, 5, 30), Err(AmmError::Overflow));
    assert_eq!(constant_product_out(1, 0, 5, 10_000), Err(AmmError::Overflow));
}

#[test]
fn curve_extreme_values_do_not_overflow() {
    assert_eq!(constant_product_out(u64::MAX, 1, u64::MAX, 0), Ok(u64::MAX - 1));
}

#[test]
fn ceil_div_rounds_up() {
    assert_eq!(ceil_div(1, 10, 3), Ok(4));
    assert_eq!(ceil_div(3, 10, 3), Ok(10));
    assert_eq!(ceil_div(0, 10, 3), Ok(0));
}

#[test]
fn ceil_div_overflow() {
    assert_eq!(ceil_div(u128::MAX, 2, 1), Err(AmmError::Overflow));
    assert_eq!(ceil_div(u128::MAX, 1, 2), Err(AmmError::Overflow));
    assert_eq!(ceil_div(u64::MAX as u128 + 1, 1, 1), Err(AmmError::Overflow));
}

#[test]
fn floor_div_rounds_down() {
    assert_eq!(floor_div(1, 10, 3), Ok(3));
    assert_eq!(floor_div(3, 10, 3), Ok(10));
}

#[test]
fn floor_div_errors() {
    assert_eq!(floor_div(1, 10, 0), Err(AmmError::Overflow));
    assert_eq!(floor_div(u128::MAX, 2, 1), Err(AmmError::Overflow));
    assert_eq!(floor_div(u64::MAX as u128 + 1, 1, 1), Err(AmmError::Overflow));
}

#[test]
fn constants_hold_their_values() {
    assert_eq!(FEE_DENOMINATOR, 10_000);
    assert_eq!(MAX_FEE_BPS, 10_000);
    assert_eq!(&CONFIG_SEED, b"config");
    assert_eq!(&LP_SEED, b"lp");
}

// initialize

#[test]
fn initialize_accepts_full_fee_and_keeps_arguments() {
    let init = Initialize { mint_x: key(3), mint_y: key(4) };
    let cfg = init
        .initialize(99, 10_000, Some(key(5)), &InitializeBumps { config: 11, mint_lp: 12 })
        .unwrap();
    assert_eq!(
        cfg,
        Config {
            seed: 99,
            authority: Some(key(5)),
            mint_x: key(3),
            mint_y: key(4),
            fee: 10_000,
            locked: false,
            config_bump: 11,
            lp_bump: 12,
        }
    );
}

#[test]
fn initialize_checks_fee_before_mints() {
    let init = Initialize { mint_x: key(3), mint_y: key(3) };
    let r = init.initialize(1, 20_000, None, &InitializeBumps { config: 1, mint_lp: 1 });
    assert_eq!(r, Err(AmmError::InvalidFee));
}

#[test]
fn keys_differing_in_one_byte_are_different() {
    let a = key(1);
    let mut b = key(1);
    b.bytes[31] = 0;
    assert!(a.same_as(&key(1)));
    assert!(!a.same_as(&b));
    let init = Initialize { mint_x: a, mint_y: b };
    assert!(init.initialize(1, 0, None, &InitializeBumps { config: 1, mint_lp: 1 }).is_ok());
}

// deposit

#[test]
fn deposit_locked_pool() {
    let d = Deposit { config: config(0, true), lp_supply: 10, vault_x: 10, vault_y: 10 };
    assert_eq!(d.deposit(1, 100, 100), Err(AmmError::PoolLocked));
}

#[test]
fn first_deposit_needs_both_caps() {
    let d = Deposit { config: config(0, false), lp_supply: 0, vault_x: 0, vault_y: 0 };
    assert_eq!(d.deposit(10, 0, 5), Err(AmmError::ZeroAmount));
    assert_eq!(d.deposit(10, 5, 0), Err(AmmError::ZeroAmount));
    assert_eq!(d.deposit(10, 5, 6), Ok(DepositPlan { x: 5, y: 6, lp: 10 }));
}

#[test]
fn deposit_rounds_up_for_the_pool() {
    let d = Deposit { config: config(0, false), lp_supply: 3, vault_x: 10, vault_y: 20 };
    // 1 * 10 / 3 = 3.33 -> 4 ; 1 * 20 / 3 = 6.67 -> 7
    assert_eq!(d.deposit(1, 100, 100), Ok(DepositPlan { x: 4, y: 7, lp: 1 }));
}

#[test]
fn deposit_into_empty_vault_is_zero_amount() {
    let d = Deposit { config: config(0, false), lp_supply: 3, vault_x: 0, vault_y: 20 };
    assert_eq!(d.deposit(1, 100, 100), Err(AmmError::ZeroAmount));
}

#[test]
fn deposit_overflow() {
    let d = Deposit { config: config(0, false), lp_supply: 1, vault_x: u64::MAX, vault_y: 1 };
    assert_eq!(d.deposit(2, u64::MAX, u64::MAX), Err(AmmError::Overflow));
}

// swap

#[test]
fn swap_locked_pool() {
    let s = Swap { config: config(30, true), vault_x: 100, vault_y: 100 };
    assert_eq!(s.swap(true, 10, 0), Err(AmmError::PoolLocked));
}

#[test]
fn swap_without_liquidity() {
    let s = Swap { config: config(30, false), vault_x: 0, vault_y: 100 };
    assert_eq!(s.swap(true, 10, 0), Err(AmmError::NoLiquidity));
    assert_eq!(s.swap(false, 10, 0), Err(AmmError::NoLiquidity));
}

#[test]
fn swap_too_small_is_invalid_output() {
    let s = Swap { config: config(30, false), vault_x: 1_000_000, vault_y: 1_000_000 };
    assert_eq!(s.swap(true, 1, 0), Err(AmmError::InvalidOutput));
}

#[test]
fn swap_round_trip_gives_back_no_more() {
    let fee = 30;
    let s1 = Swap { config: config(fee, false), vault_x: 1_000_000, vault_y: 4_000_000 };
    let p1 = s1.swap(true, 100_000, 0).unwrap();
    assert_eq!(p1.side_in, Side::X);
    let s2 = Swap {
        config: config(fee, false),
        vault_x: 1_000_000 + p1.amount_in,
        vault_y: 4_000_000 - p1.amount_out,
    };
    let p2 = s2.swap(false, p1.amount_out, 0).unwrap();
    assert_eq!(p2.side_out, Side::X);
    assert!(p2.amount_out <= 100_000);
    assert_eq!(p2.amount_out, 99_454);
}

#[test]
fn swap_product_grows() {
    let s = Swap { config: config(0, false), vault_x: 1_000, vault_y: 1_000 };
    let p = s.swap(false, 1_000, 0).unwrap();
    assert_eq!(p.amount_out, 500);
    assert!(1_500u128 * 2_000u128 >= 1_000u128 * 1_000u128);
}

// withdraw

#[test]
fn withdraw_locked_pool() {
    let w = Withdraw { config: config(0, true), lp_supply: 10, vault_x: 10, vault_y: 10 };
    assert_eq!(w.withdraw(1, 0, 0), Err(AmmError::PoolLocked));
}

#[test]
fn withdraw_zero_and_empty_supply() {
    let w = Withdraw { config: config(0, false), lp_supply: 10, vault_x: 10, vault_y: 10 };
    assert_eq!(w.withdraw(0, 0, 0), Err(AmmError::ZeroAmount));
    let empty = Withdraw { config: config(0, false), lp_supply: 0, vault_x: 10, vault_y: 10 };
    assert_eq!(empty.withdraw(1, 0, 0), Err(AmmError::NoLiquidity));
}

#[test]
fn withdraw_dust_is_invalid_output() {
    let w = Withdraw { config: config(0, false), lp_supply: 1_000, vault_x: 10, vault_y: 10_000 };
    assert_eq!(w.withdraw(1, 0, 0), Err(AmmError::InvalidOutput));
}

#[test]
fn withdraw_overflow() {
    let w = Withdraw { config: config(0, false), lp_supply: 1, vault_x: u64::MAX, vault_y: 1 };
    assert_eq!(w.withdraw(2, 0, 0), Err(AmmError::Overflow));
}

#[test]
fn withdraw_whole_supply_empties_vaults() {
    let w = Withdraw { config: config(0, false), lp_supply: 7, vault_x: 13, vault_y: 29 };
    assert_eq!(w.withdraw(7, 0, 0), Ok(WithdrawPlan { burn: 7, x: 13, y: 29 }));
}

#[test]
fn deposit_then_withdraw_gives_back_no_more() {
    let d = Deposit { config: config(0, false), lp_supply: 3, vault_x: 10, vault_y: 20 };
    let p = d.deposit(1, 100, 100).unwrap();
    let w = Withdraw { config: config(0, false), lp_supply: 4, vault_x: 10 + p.x, vault_y: 20 + p.y };
    let back = w.withdraw(1, 0, 0).unwrap();
    assert!(back.x <= p.x && back.y <= p.y);
    assert_eq!((back.x, back.y), (3, 6));
}

// seeds and messages

#[test]
fn seed_bytes_are_little_endian() {
    assert_eq!(seed_le_bytes(0x0102_0304_0506_0708), vec![8, 7, 6, 5, 4, 3, 2, 1]);
    assert_eq!(seed_le_bytes(42), 42u64.to_le_bytes().to_vec());
}

#[test]
fn signer_seeds_of_a_pool() {
    let cfg = config(0, false);
    let seeds = config_signer_seeds(&cfg);
    assert_eq!(seeds, vec![b"config".to_vec(), 7u64.to_le_bytes().to_vec(), vec![200u8]]);
    let lp = lp_mint_seeds(&key(5));
    assert_eq!(lp, vec![b"lp".to_vec(), vec![5u8; 32]]);
}

#[test]
fn error_messages() {
    assert_eq!(AmmError::InvalidFee.message(), "Fee in basis points cannot exceed 10000 (100%)");
    assert_eq!(AmmError::IdenticalMints.message(), "The two mints of a pool must be different");
    assert_eq!(AmmError::PoolLocked.message(), "The pool is locked");
    assert_eq!(AmmError::ZeroAmount.message(), "Amount must be greater than zero");
    assert_eq!(AmmError::NoLiquidity.message(), "Pool has no liquidity");
    assert_eq!(AmmError::SlippageExceeded.message(), "Slippage tolerance exceeded");
    assert_eq!(AmmError::Overflow.message(), "Arithmetic overflow");
    assert_eq!(AmmError::InvalidOutput.message(), "Computed output is invalid");
}
