//! Properties of the pool that span its operations.

use vstd::prelude::*;

use crate::error::AmmError;
use crate::instructions::deposit::deposit_outcome;
use crate::instructions::initialize::{initialize_outcome, InitializeBumps};
use crate::instructions::swap::swap_outcome;
use crate::instructions::withdraw::withdraw_outcome;
use crate::math::{amount_after_fee, lemma_after_fee_bounds, lemma_div_bounds};
use crate::state::Key;

verus! {

/// A swap never shrinks the product of the two reserves: once the paid
/// amount is in and the received amount is out, `reserve_in * reserve_out`
/// is at least what it was (the fee makes it grow).
pub proof fn lemma_swap_never_shrinks_product(
    locked: bool,
    fee: u16,
    reserve_in: u64,
    reserve_out: u64,
    amount_in: u64,
    min_out: u64,
    out: u64,
)
    requires
        fee <= 10_000,
        swap_outcome(locked, fee, reserve_in, reserve_out, amount_in, min_out) == Ok::<u64, AmmError>(out),
    ensures
        out < reserve_out,
        (reserve_in + amount_in) * (reserve_out - out) >= reserve_in * reserve_out,
{
    lemma_after_fee_bounds(amount_in as int, fee as int);
    let a = amount_after_fee(amount_in as int, fee as int);
    let d = reserve_in + a;
    let n = reserve_out * a;
    assert(n >= 0) by (nonlinear_arith)
        requires n == reserve_out * a, a >= 0, reserve_out >= 0;
    lemma_div_bounds(n, d);
    let o = out as int;
    let ri = reserve_in as int;
    let ro = reserve_out as int;
    let ai = amount_in as int;
    assert(o == n / d);
    assert((ri + ai) * (ro - o) >= ri * ro) by (nonlinear_arith)
        requires
            d == ri + a,
            d > 0,
            n == ro * a,
            d * o <= n,
            0 <= a <= ai,
            0 <= o < ro,
            ri > 0,
    {
        assert(d * (ro - o) >= ri * ro);
        assert((ri + ai) * (ro - o) >= d * (ro - o));
    }
}

/// Swapping x for y and then swapping all of that y straight back never
/// returns more x than was paid in (there is no round-trip profit).
pub proof fn lemma_swap_round_trip_no_gain(
    fee: u16,
    reserve_x: u64,
    reserve_y: u64,
    amount_x: u64,
    min_y: u64,
    out_y: u64,
    min_x: u64,
    back_x: u64,
)
    requires
        fee <= 10_000,
        reserve_x + amount_x <= u64::MAX,
        swap_outcome(false, fee, reserve_x, reserve_y, amount_x, min_y) == Ok::<u64, AmmError>(out_y),
        swap_outcome(
            false,
            fee,
            (reserve_y - out_y) as u64,
            (reserve_x + amount_x) as u64,
            out_y,
            min_x,
        ) == Ok::<u64, AmmError>(back_x),
    ensures
        back_x <= amount_x,
{
    lemma_swap_never_shrinks_product(false, fee, reserve_x, reserve_y, amount_x, min_y, out_y);
    lemma_swap_never_shrinks_product(
        false,
        fee,
        (reserve_y - out_y) as u64,
        (reserve_x + amount_x) as u64,
        out_y,
        min_x,
        back_x,
    );
    let rx = reserve_x as int;
    let ry = reserve_y as int;
    let a = amount_x as int;
    let b = out_y as int;
    let c = back_x as int;
    assert(c <= a) by (nonlinear_arith)
        requires
            (rx + a) * (ry - b) >= rx * ry,
            ((ry - b) + b) * ((rx + a) - c) >= (ry - b) * (rx + a),
            ry > 0,
    {
        assert(ry * (rx + a - c) >= rx * ry);
    }
}

/// A deposit into a funded pool never lowers the value of an LP token: the
/// reserve per LP token after the deposit is at least what it was, for both
/// tokens, because the depositor pays the proportional share rounded up.
pub proof fn lemma_deposit_keeps_share_value(
    supply: u64,
    vault_x: u64,
    vault_y: u64,
    amount: u64,
    max_x: u64,
    max_y: u64,
    x: u64,
    y: u64,
)
    requires
        supply > 0,
        deposit_outcome(false, supply, vault_x, vault_y, amount, max_x, max_y) == Ok::<(u64, u64), AmmError>((x, y)),
    ensures
        x * supply >= amount * vault_x,
        y * supply >= amount * vault_y,
        (vault_x + x) * supply >= vault_x * (supply + amount),
        (vault_y + y) * supply >= vault_y * (supply + amount),
{
    lemma_ceil_pays_at_least_share(amount, vault_x, supply, x);
    lemma_ceil_pays_at_least_share(amount, vault_y, supply, y);
}

proof fn lemma_ceil_pays_at_least_share(amount: u64, reserve: u64, supply: u64, paid: u64)
    requires
        supply > 0,
        paid == (amount * reserve + supply - 1) / (supply as int),
    ensures
        paid * supply >= amount * reserve,
        (reserve + paid) * supply >= reserve * (supply + amount),
{
    let m = amount * reserve;
    assert(m >= 0) by (nonlinear_arith)
        requires m == amount * reserve;
    lemma_div_bounds(m + supply - 1, supply as int);
    assert(paid * supply >= m) by (nonlinear_arith)
        requires
            supply * paid + supply > m + supply - 1,
            supply > 0;
    assert((reserve + paid) * supply >= reserve * (supply + amount)) by (nonlinear_arith)
        requires paid * supply >= amount * reserve;
}

proof fn lemma_floor_pays_at_most_share(amount: u64, reserve: u64, supply: u64, paid: u64)
    requires
        supply > 0,
        paid == amount * reserve / (supply as int),
    ensures
        paid * supply <= amount * reserve,
        (reserve - paid) * supply >= reserve * (supply - amount),
        amount <= supply ==> paid <= reserve,
        amount == supply ==> paid == reserve,
{
    let m = amount * reserve;
    assert(m >= 0) by (nonlinear_arith)
        requires m == amount * reserve;
    lemma_div_bounds(m, supply as int);
    assert(paid * supply <= m) by (nonlinear_arith)
        requires supply * paid <= m;
    assert((reserve - paid) * supply >= reserve * (supply - amount)) by (nonlinear_arith)
        requires paid * supply <= amount * reserve;
    if amount <= supply {
        assert(paid <= reserve) by (nonlinear_arith)
            requires paid * supply <= amount * reserve, amount <= supply, supply > 0, reserve >= 0;
    }
    if amount == supply {
        assert(paid == reserve) by (nonlinear_arith)
            requires
                supply * paid <= m,
                m < supply * paid + supply,
                m == amount * reserve,
                amount == supply,
                supply > 0;
    }
}

/// A withdrawal never lowers the value of the LP tokens that remain: the
/// withdrawer gets at most the proportional share, rounded down. Burning at
/// most the whole supply never asks for more than a vault holds, and burning
/// exactly the whole supply empties both vaults.
pub proof fn lemma_withdraw_keeps_share_value(
    supply: u64,
    vault_x: u64,
    vault_y: u64,
    amount: u64,
    min_x: u64,
    min_y: u64,
    x: u64,
    y: u64,
)
    requires
        withdraw_outcome(false, supply, vault_x, vault_y, amount, min_x, min_y) == Ok::<(u64, u64), AmmError>((x, y)),
    ensures
        supply > 0,
        x * supply <= amount * vault_x,
        y * supply <= amount * vault_y,
        (vault_x - x) * supply >= vault_x * (supply - amount),
        (vault_y - y) * supply >= vault_y * (supply - amount),
        amount <= supply ==> x <= vault_x && y <= vault_y,
        amount == supply ==> x == vault_x && y == vault_y,
{
    lemma_floor_pays_at_most_share(amount, vault_x, supply, x);
    lemma_floor_pays_at_most_share(amount, vault_y, supply, y);
}

/// Depositing for some LP tokens and then withdrawing the same LP tokens
/// never returns more of either token than was paid in. This holds for any
/// deposit into a pool that has LP supply, and for the first deposit into a
/// pool whose vaults are empty.
pub proof fn lemma_deposit_then_withdraw_no_gain(
    supply: u64,
    vault_x: u64,
    vault_y: u64,
    amount: u64,
    max_x: u64,
    max_y: u64,
    x: u64,
    y: u64,
    min_x: u64,
    min_y: u64,
    back_x: u64,
    back_y: u64,
)
    requires
        supply > 0 || (vault_x == 0 && vault_y == 0),
        supply + amount <= u64::MAX,
        vault_x + x <= u64::MAX,
        vault_y + y <= u64::MAX,
        deposit_outcome(false, supply, vault_x, vault_y, amount, max_x, max_y) == Ok::<(u64, u64), AmmError>((x, y)),
        withdraw_outcome(
            false,
            (supply + amount) as u64,
            (vault_x + x) as u64,
            (vault_y + y) as u64,
            amount,
            min_x,
            min_y,
        ) == Ok::<(u64, u64), AmmError>((back_x, back_y)),
    ensures
        back_x <= x,
        back_y <= y,
{
    let s2 = (supply + amount) as u64;
    lemma_floor_pays_at_most_share(amount, (vault_x + x) as u64, s2, back_x);
    lemma_floor_pays_at_most_share(amount, (vault_y + y) as u64, s2, back_y);
    if supply > 0 {
        lemma_ceil_pays_at_least_share(amount, vault_x, supply, x);
        lemma_ceil_pays_at_least_share(amount, vault_y, supply, y);
    } else {
        assert(x * supply >= amount * vault_x && y * supply >= amount * vault_y) by (nonlinear_arith)
            requires supply == 0, vault_x == 0, vault_y == 0;
    }
    lemma_withdraw_bounded_by_deposit(supply, vault_x, amount, x, back_x);
    lemma_withdraw_bounded_by_deposit(supply, vault_y, amount, y, back_y);
}

proof fn lemma_withdraw_bounded_by_deposit(supply: u64, vault: u64, amount: u64, paid: u64, back: u64)
    requires
        supply > 0 || vault == 0,
        paid * supply >= amount * vault,
        back * (supply + amount) <= amount * (vault + paid),
        amount > 0,
    ensures
        back <= paid,
{
    assert(back <= paid) by (nonlinear_arith)
        requires
            paid * supply >= amount * vault,
            back * (supply + amount) <= amount * (vault + paid),
            amount > 0,
            supply >= 0,
            vault >= 0,
    {
        assert(amount * (vault + paid) <= paid * (supply + amount));
        assert(back * (supply + amount) <= paid * (supply + amount));
    }
}

/// A locked pool refuses every deposit, swap and withdrawal with `PoolLocked`.
pub proof fn lemma_locked_pool_refuses_all(
    fee: u16,
    supply: u64,
    vault_x: u64,
    vault_y: u64,
    amount: u64,
    limit_x: u64,
    limit_y: u64,
)
    ensures
        deposit_outcome(true, supply, vault_x, vault_y, amount, limit_x, limit_y) == Err::<(u64, u64), AmmError>(AmmError::PoolLocked),
        withdraw_outcome(true, supply, vault_x, vault_y, amount, limit_x, limit_y) == Err::<(u64, u64), AmmError>(AmmError::PoolLocked),
        swap_outcome(true, fee, vault_x, vault_y, amount, limit_y) == Err::<u64, AmmError>(AmmError::PoolLocked),
        swap_outcome(true, fee, vault_y, vault_x, amount, limit_x) == Err::<u64, AmmError>(AmmError::PoolLocked),
{
}

/// A swap pays exactly the constant-product amount: with `a` the input left
/// after the fee, `amount_in * (10000 - fee) / 10000`, it pays
/// `reserve_out * a / (reserve_in + a)`. It is refused only when the pool is
/// locked, the amount is zero, a reserve is empty, that payout is zero or not
/// below `reserve_out`, or it is below `min_out`; each refusal carries its error.
pub proof fn lemma_swap_pays_the_curve(
    locked: bool,
    fee: u16,
    reserve_in: u64,
    reserve_out: u64,
    amount_in: u64,
    min_out: u64,
)
    requires
        fee <= 10_000,
    ensures
        ({
            let a = amount_in * (10_000 - fee) / 10_000;
            let out = reserve_out * a / (reserve_in + a);
            let res = swap_outcome(locked, fee, reserve_in, reserve_out, amount_in, min_out);
            &&& locked ==> res == Err::<u64, AmmError>(AmmError::PoolLocked)
            &&& !locked && amount_in == 0 ==> res == Err::<u64, AmmError>(AmmError::ZeroAmount)
            &&& !locked && amount_in > 0 && (reserve_in == 0 || reserve_out == 0)
                ==> res == Err::<u64, AmmError>(AmmError::NoLiquidity)
            &&& !locked && amount_in > 0 && reserve_in > 0 && reserve_out > 0 && (out == 0 || out >= reserve_out)
                ==> res == Err::<u64, AmmError>(AmmError::InvalidOutput)
            &&& !locked && amount_in > 0 && reserve_in > 0 && reserve_out > 0 && 0 < out < reserve_out && out < min_out
                ==> res == Err::<u64, AmmError>(AmmError::SlippageExceeded)
            &&& !locked && amount_in > 0 && reserve_in > 0 && reserve_out > 0 && 0 < out < reserve_out && out >= min_out
                ==> res == Ok::<u64, AmmError>(out as u64)
        }),
{
}

/// A deposit into a pool with LP supply charges, for each token, the
/// smallest amount `p` with `p * supply >= amount * vault` (the proportional
/// share rounded up). When both of those fit in `u64`, are positive and within
/// the caps, the deposit is accepted with exactly them; it fails with
/// `Overflow` only when one of them does not fit in `u64`.
pub proof fn lemma_deposit_charges_rounded_up_share(
    supply: u64,
    vault_x: u64,
    vault_y: u64,
    amount: u64,
    max_x: u64,
    max_y: u64,
)
    requires
        supply > 0,
        amount > 0,
    ensures
        ({
            let cx = (amount * vault_x + supply - 1) / (supply as int);
            let cy = (amount * vault_y + supply - 1) / (supply as int);
            let res = deposit_outcome(false, supply, vault_x, vault_y, amount, max_x, max_y);
            &&& cx * supply >= amount * vault_x && (cx - 1) * supply < amount * vault_x
            &&& cy * supply >= amount * vault_y && (cy - 1) * supply < amount * vault_y
            &&& 0 < cx <= max_x && 0 < cy <= max_y ==> res == Ok::<(u64, u64), AmmError>((cx as u64, cy as u64))
            &&& res == Err::<(u64, u64), AmmError>(AmmError::Overflow) ==> cx > u64::MAX || cy > u64::MAX
            &&& (cx > max_x || cy > max_y) && cx <= u64::MAX && cy <= u64::MAX
                ==> res == Err::<(u64, u64), AmmError>(AmmError::SlippageExceeded)
            &&& res matches Ok((x, y)) ==> {
                &&& x * supply >= amount * vault_x && (x - 1) * supply < amount * vault_x
                &&& y * supply >= amount * vault_y && (y - 1) * supply < amount * vault_y
                &&& 0 < x <= max_x && 0 < y <= max_y
            }
        }),
{
    lemma_ceil_is_least_cover(amount, vault_x, supply);
    lemma_ceil_is_least_cover(amount, vault_y, supply);
}

proof fn lemma_ceil_is_least_cover(amount: u64, reserve: u64, supply: u64)
    requires
        supply > 0,
    ensures
        ({
            let c = (amount * reserve + supply - 1) / (supply as int);
            c * supply >= amount * reserve && (c - 1) * supply < amount * reserve
        }),
{
    let m = amount * reserve;
    assert(m >= 0) by (nonlinear_arith)
        requires m == amount * reserve;
    lemma_div_bounds(m + supply - 1, supply as int);
    let c = (m + supply - 1) / (supply as int);
    assert(c * supply >= m && (c - 1) * supply < m) by (nonlinear_arith)
        requires
            supply * c <= m + supply - 1,
            m + supply - 1 < supply * c + supply,
            supply > 0;
}

proof fn lemma_floor_is_greatest_under(amount: u64, reserve: u64, supply: u64)
    requires
        supply > 0,
    ensures
        ({
            let f = amount * reserve / (supply as int);
            f * supply <= amount * reserve && amount * reserve < (f + 1) * supply && f >= 0
        }),
{
    let m = amount * reserve;
    assert(m >= 0) by (nonlinear_arith)
        requires m == amount * reserve;
    lemma_div_bounds(m, supply as int);
    let f = m / (supply as int);
    assert(f * supply <= m && m < (f + 1) * supply) by (nonlinear_arith)
        requires
            supply * f <= m,
            m < supply * f + supply;
}

/// The first deposit into a pool without LP supply pays exactly the caps
/// `max_x` and `max_y`, whatever the vaults hold, and so sets the price.
pub proof fn lemma_first_deposit_pays_the_caps(
    vault_x: u64,
    vault_y: u64,
    amount: u64,
    max_x: u64,
    max_y: u64,
)
    requires
        amount > 0,
        max_x > 0,
        max_y > 0,
    ensures
        deposit_outcome(false, 0, vault_x, vault_y, amount, max_x, max_y) == Ok::<(u64, u64), AmmError>((max_x, max_y)),
{
}

/// A withdrawal pays, for each token, the largest amount `p` with
/// `p * supply <= amount * vault` (the proportional share rounded down).
/// When both fit in `u64`, are positive and meet the floors, the withdrawal is
/// accepted with exactly them; it fails with `Overflow` only when one of them
/// does not fit in `u64`.
pub proof fn lemma_withdraw_pays_rounded_down_share(
    supply: u64,
    vault_x: u64,
    vault_y: u64,
    amount: u64,
    min_x: u64,
    min_y: u64,
)
    requires
        supply > 0,
        amount > 0,
    ensures
        ({
            let fx = amount * vault_x / (supply as int);
            let fy = amount * vault_y / (supply as int);
            let res = withdraw_outcome(false, supply, vault_x, vault_y, amount, min_x, min_y);
            &&& fx * supply <= amount * vault_x < (fx + 1) * supply
            &&& fy * supply <= amount * vault_y < (fy + 1) * supply
            &&& 0 < fx <= u64::MAX && 0 < fy <= u64::MAX && fx >= min_x && fy >= min_y
                ==> res == Ok::<(u64, u64), AmmError>((fx as u64, fy as u64))
            &&& res == Err::<(u64, u64), AmmError>(AmmError::Overflow) ==> fx > u64::MAX || fy > u64::MAX
            &&& fx <= u64::MAX && fy <= u64::MAX && (fx == 0 || fy == 0)
                ==> res == Err::<(u64, u64), AmmError>(AmmError::InvalidOutput)
            &&& res matches Ok((x, y)) ==> {
                &&& x * supply <= amount * vault_x < (x + 1) * supply
                &&& y * supply <= amount * vault_y < (y + 1) * supply
                &&& x >= min_x && y >= min_y
            }
        }),
{
    lemma_floor_is_greatest_under(amount, vault_x, supply);
    lemma_floor_is_greatest_under(amount, vault_y, supply);
}

/// Creating a pool succeeds exactly when the fee is at most 100% and the two
/// mints differ, and the configuration it builds keeps every argument in its
/// place: `mint_x` as the x mint, `mint_y` as the y mint, the seed, the
/// authority, the fee and both bumps, and starts unlocked.
pub proof fn lemma_initialize_keeps_arguments(
    mint_x: Key,
    mint_y: Key,
    seed: u64,
    fee: u16,
    authority: Option<Key>,
    bumps: InitializeBumps,
)
    ensures
        initialize_outcome(mint_x, mint_y, seed, fee, authority, bumps) is Ok <==> (fee <= 10_000 && mint_x@ != mint_y@),
        fee > 10_000 ==> initialize_outcome(mint_x, mint_y, seed, fee, authority, bumps)
            == Err::<crate::state::Config, AmmError>(AmmError::InvalidFee),
        fee <= 10_000 && mint_x@ == mint_y@ ==> initialize_outcome(mint_x, mint_y, seed, fee, authority, bumps)
            == Err::<crate::state::Config, AmmError>(AmmError::IdenticalMints),
        initialize_outcome(mint_x, mint_y, seed, fee, authority, bumps) matches Ok(c) ==> {
            &&& c.mint_x == mint_x
            &&& c.mint_y == mint_y
            &&& c.seed == seed
            &&& c.authority == authority
            &&& c.fee == fee
            &&& !c.locked
            &&& c.config_bump == bumps.config
            &&& c.lp_bump == bumps.mint_lp
        },
{
}

/// Why a deposit is refused: a locked pool, a zero amount, a first deposit
/// with a zero cap, a share that does not fit in `u64`, a share above its cap,
/// or a share of zero (an empty vault), checked in that order.
pub proof fn lemma_deposit_refusals(
    locked: bool,
    supply: u64,
    vault_x: u64,
    vault_y: u64,
    amount: u64,
    max_x: u64,
    max_y: u64,
)
    ensures
        ({
            let res = deposit_outcome(locked, supply, vault_x, vault_y, amount, max_x, max_y);
            let cx = (amount * vault_x + supply - 1) / (supply as int);
            let cy = (amount * vault_y + supply - 1) / (supply as int);
            &&& locked ==> res == Err::<(u64, u64), AmmError>(AmmError::PoolLocked)
            &&& !locked && amount == 0 ==> res == Err::<(u64, u64), AmmError>(AmmError::ZeroAmount)
            &&& !locked && amount > 0 && supply == 0 && (max_x == 0 || max_y == 0)
                ==> res == Err::<(u64, u64), AmmError>(AmmError::ZeroAmount)
            &&& !locked && amount > 0 && supply > 0 && (cx > u64::MAX || cy > u64::MAX)
                ==> res == Err::<(u64, u64), AmmError>(AmmError::Overflow)
            &&& !locked && amount > 0 && supply > 0 && cx <= u64::MAX && cy <= u64::MAX && (cx > max_x || cy > max_y)
                ==> res == Err::<(u64, u64), AmmError>(AmmError::SlippageExceeded)
            &&& !locked && amount > 0 && supply > 0 && cx <= max_x && cy <= max_y && (cx == 0 || cy == 0)
                ==> res == Err::<(u64, u64), AmmError>(AmmError::ZeroAmount)
        }),
{
}

/// Why a withdrawal is refused: a locked pool, a zero amount, no LP supply,
/// a share that does not fit in `u64`, a share of zero, or a share below its
/// floor, checked in that order.
pub proof fn lemma_withdraw_refusals(
    locked: bool,
    supply: u64,
    vault_x: u64,
    vault_y: u64,
    amount: u64,
    min_x: u64,
    min_y: u64,
)
    ensures
        ({
            let res = withdraw_outcome(locked, supply, vault_x, vault_y, amount, min_x, min_y);
            let fx = amount * vault_x / (supply as int);
            let fy = amount * vault_y / (supply as int);
            &&& locked ==> res == Err::<(u64, u64), AmmError>(AmmError::PoolLocked)
            &&& !locked && amount == 0 ==> res == Err::<(u64, u64), AmmError>(AmmError::ZeroAmount)
            &&& !locked && amount > 0 && supply == 0 ==> res == Err::<(u64, u64), AmmError>(AmmError::NoLiquidity)
            &&& !locked && amount > 0 && supply > 0 && (fx > u64::MAX || fy > u64::MAX)
                ==> res == Err::<(u64, u64), AmmError>(AmmError::Overflow)
            &&& !locked && amount > 0 && supply > 0 && fx <= u64::MAX && fy <= u64::MAX && (fx == 0 || fy == 0)
                ==> res == Err::<(u64, u64), AmmError>(AmmError::InvalidOutput)
            &&& !locked && amount > 0 && supply > 0 && 0 < fx <= u64::MAX && 0 < fy <= u64::MAX
                && (fx < min_x || fy < min_y)
                ==> res == Err::<(u64, u64), AmmError>(AmmError::SlippageExceeded)
        }),
{
}

} // verus!
