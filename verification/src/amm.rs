//! The pricing rules of the constant-product pool: protocol fee, deposit and
//! withdrawal amounts, the swap invariant and the time-weighted price
//! accumulators.

use vstd::prelude::*;

use crate::constants::{FEE_DENOMINATOR, MINIMUM_LIQUIDITY, SWAP_FEE_BPS};
use crate::error::AmmError;
use crate::math::{isqrt, lemma_isqrt, min_u128, quote, quote_value, sqrt_u128};
use crate::state::PairState;

verus! {

/// `2^64`, the scale of the Q64.64 price accumulators.
pub const Q64: u128 = 0x1_0000_0000_0000_0000;

/// The product of two `u64`s fits in a `u128`.
pub proof fn lemma_u64_product_fits(a: u64, b: u64)
    ensures
        0 <= (a as int) * (b as int) <= (u64::MAX as int) * (u64::MAX as int),
        (u64::MAX as int) * (u64::MAX as int) < u128::MAX,
{
    assert(0 <= (a as int) * (b as int) <= (u64::MAX as int) * (u64::MAX as int))
        by (nonlinear_arith)
        requires
            0 <= a <= u64::MAX,
            0 <= b <= u64::MAX,
    ;
}

/// Returns the fixed swap fee used by all pools, in basis points.
pub fn swap_fee_bps() -> (r: u128)
    ensures
        r == SWAP_FEE_BPS,
{
    SWAP_FEE_BPS as u128
}

// ---------------------------------------------------------------------------
// Protocol fee
// ---------------------------------------------------------------------------

/// The square roots of the current and of the last recorded `k`, when the pool
/// has grown since `k_last` was recorded (and `k_last` is set at all).
pub open spec fn fee_roots_spec(k_last: int, reserve0: int, reserve1: int) -> Option<(int, int)> {
    if k_last == 0 {
        None
    } else {
        let root_k = isqrt(reserve0 * reserve1);
        let root_k_last = isqrt(k_last);
        if root_k <= root_k_last {
            None
        } else {
            Some((root_k, root_k_last))
        }
    }
}

/// The LP amount minted to the protocol for a growth of `sqrt(k)` from
/// `root_k_last` to `root_k`.
pub open spec fn fee_from_roots_spec(total_supply: int, root_k: int, root_k_last: int) -> int {
    total_supply * (root_k - root_k_last) / (root_k * 5 + root_k_last)
}

/// The protocol fee in LP tokens owed for the pool growth since `k_last`.
pub open spec fn protocol_fee_spec(k_last: int, reserve0: int, reserve1: int, total_supply: int) -> int {
    match fee_roots_spec(k_last, reserve0, reserve1) {
        None => 0,
        Some((root_k, root_k_last)) => fee_from_roots_spec(total_supply, root_k, root_k_last),
    }
}

/// Decides whether the pool has grown since `k_last`, and by which roots.
pub fn fee_roots(k_last: u128, reserve0: u64, reserve1: u64) -> (r: Option<(u128, u128)>)
    ensures
        match (r, fee_roots_spec(k_last as int, reserve0 as int, reserve1 as int)) {
            (None, None) => true,
            (Some((a, b)), Some((c, d))) => a == c && b == d,
            _ => false,
        },
        r matches Some((root_k, root_k_last)) ==> root_k_last < root_k <= u64::MAX,
{
    if k_last == 0 {
        return None;
    }
    proof {
        lemma_u64_product_fits(reserve0, reserve1);
    }
    let current_k = (reserve0 as u128) * (reserve1 as u128);
    let root_k = sqrt_u128(current_k);
    let root_k_last = sqrt_u128(k_last);
    if root_k <= root_k_last {
        return None;
    }
    proof {
        if root_k > u64::MAX {
            assert((root_k as int) * (root_k as int) > (u64::MAX as int) * (u64::MAX as int))
                by (nonlinear_arith)
                requires
                    root_k > u64::MAX,
            ;
        }
    }
    Some((root_k, root_k_last))
}

/// The LP amount minted to the protocol for the given growth of `sqrt(k)`.
pub fn fee_from_roots(total_supply: u64, root_k: u128, root_k_last: u128) -> (r: u128)
    requires
        root_k_last < root_k <= u64::MAX,
    ensures
        r == fee_from_roots_spec(total_supply as int, root_k as int, root_k_last as int),
        r < total_supply || total_supply == 0,
        6 * root_k * r <= (total_supply + r) * (root_k - root_k_last),
{
    let growth = root_k - root_k_last;
    proof {
        lemma_u64_product_fits(total_supply, growth as u64);
    }
    let numerator = (total_supply as u128) * growth;
    let denominator = root_k * 5 + root_k_last;
    let liquidity = numerator / denominator;
    proof {
        lemma_fee_share(total_supply as int, root_k as int, root_k_last as int, liquidity as int);
    }
    liquidity
}

/// The fee share: less than the supply, and at most one sixth of the growth of
/// `sqrt(k)` as a share of the supply after minting.
proof fn lemma_fee_share(s: int, rk: int, rkl: int, f: int)
    requires
        s >= 0,
        0 <= rkl < rk,
        f == s * (rk - rkl) / (rk * 5 + rkl),
    ensures
        f < s || s == 0,
        6 * rk * f <= (s + f) * (rk - rkl),
{
    let d = rk * 5 + rkl;
    let n = s * (rk - rkl);
    vstd::arithmetic::div_mod::lemma_fundamental_div_mod(n, d);
    vstd::arithmetic::div_mod::lemma_mod_bound(n, d);
    let m = n % d;
    assert(f * d <= n) by (nonlinear_arith)
        requires
            n == d * f + m,
            m >= 0,
    ;
    assert(6 * rk * f <= (s + f) * (rk - rkl)) by (nonlinear_arith)
        requires
            f * d <= n,
            d == rk * 5 + rkl,
            n == s * (rk - rkl),
    ;
    if s > 0 {
        assert(f < s) by (nonlinear_arith)
            requires
                f * d <= n,
                d == rk * 5 + rkl,
                n == s * (rk - rkl),
                s > 0,
                0 <= rkl < rk,
        ;
    } else {
        assert(n == 0);
    }
}

// ---------------------------------------------------------------------------
// Adding liquidity
// ---------------------------------------------------------------------------

/// What [`quote`] returns.
pub open spec fn quote_spec(amount_a: int, reserve_a: int, reserve_b: int) -> Result<int, AmmError> {
    if amount_a == 0 || reserve_a == 0 || reserve_b == 0 {
        Err(AmmError::InvalidArgument)
    } else if amount_a * reserve_b > u128::MAX {
        Err(AmmError::ArithmeticOverflow)
    } else {
        Ok(quote_value(amount_a, reserve_a, reserve_b))
    }
}

/// The amounts a deposit uses on an existing pool, before minting is priced.
pub open spec fn deposit_amounts_spec(
    reserve0: int,
    reserve1: int,
    amount0_desired: int,
    amount1_desired: int,
    amount0_min: int,
    amount1_min: int,
) -> Result<(int, int), AmmError> {
    match quote_spec(amount0_desired, reserve0, reserve1) {
        Err(e) => Err(e),
        Ok(amount1_optimal) => if amount1_optimal <= amount1_desired {
            if amount1_optimal < amount1_min {
                Err(AmmError::InvalidArgument)
            } else {
                Ok((amount0_desired, amount1_optimal))
            }
        } else {
            match quote_spec(amount1_desired, reserve1, reserve0) {
                Err(e) => Err(e),
                Ok(amount0_optimal) => if amount0_optimal > amount0_desired {
                    Err(AmmError::InvalidArgument)
                } else if amount0_optimal < amount0_min {
                    Err(AmmError::InvalidArgument)
                } else {
                    Ok((amount0_optimal, amount1_desired))
                },
            }
        },
    }
}

/// The outcome of a deposit: `(amount0 used, amount1 used, LP minted to the
/// depositor, whether MINIMUM_LIQUIDITY is locked)`.
pub open spec fn add_liquidity_spec(
    reserve0: int,
    reserve1: int,
    total_supply: int,
    amount0_desired: int,
    amount1_desired: int,
    amount0_min: int,
    amount1_min: int,
) -> Result<(int, int, int, bool), AmmError> {
    if (reserve0 == 0 || reserve1 == 0) && total_supply != 0 {
        Err(AmmError::InvalidAccountData)
    } else if reserve0 == 0 && reserve1 == 0 {
        if amount0_desired < amount0_min || amount1_desired < amount1_min {
            Err(AmmError::InvalidArgument)
        } else {
            let liquidity_raw = isqrt(amount0_desired * amount1_desired);
            if liquidity_raw <= MINIMUM_LIQUIDITY {
                Err(AmmError::InvalidArgument)
            } else {
                Ok((amount0_desired, amount1_desired, liquidity_raw - MINIMUM_LIQUIDITY, true))
            }
        }
    } else {
        match deposit_amounts_spec(
            reserve0,
            reserve1,
            amount0_desired,
            amount1_desired,
            amount0_min,
            amount1_min,
        ) {
            Err(e) => Err(e),
            Ok((amount0, amount1)) => {
                let liquidity0 = amount0 * total_supply / reserve0;
                let liquidity1 = amount1 * total_supply / reserve1;
                let liquidity = if liquidity0 <= liquidity1 {
                    liquidity0
                } else {
                    liquidity1
                };
                if liquidity == 0 {
                    Err(AmmError::InvalidArgument)
                } else if liquidity > u64::MAX {
                    Err(AmmError::ArithmeticOverflow)
                } else {
                    Ok((amount0, amount1, liquidity, false))
                }
            },
        }
    }
}

/// The result of a deposit, as computed by [`add_liquidity_amounts`].
#[derive(Clone, Copy, Debug)]
pub struct Deposit {
    pub amount0: u64,
    pub amount1: u64,
    pub liquidity: u64,
    pub lock_minimum: bool,
}

/// Prices a deposit against the current reserves and LP supply.
pub fn add_liquidity_amounts(
    reserve0: u64,
    reserve1: u64,
    total_supply: u64,
    amount0_desired: u64,
    amount1_desired: u64,
    amount0_min: u64,
    amount1_min: u64,
) -> (r: Result<Deposit, AmmError>)
    ensures
        match (
            r,
            add_liquidity_spec(
                reserve0 as int,
                reserve1 as int,
                total_supply as int,
                amount0_desired as int,
                amount1_desired as int,
                amount0_min as int,
                amount1_min as int,
            ),
        ) {
            (Ok(d), Ok((a0, a1, l, lock))) => d.amount0 == a0 && d.amount1 == a1 && d.liquidity == l
                && d.lock_minimum == lock,
            (Err(e), Err(f)) => e == f,
            _ => false,
        },
{
    if (reserve0 == 0 || reserve1 == 0) && total_supply != 0 {
        return Err(AmmError::InvalidAccountData);
    }
    if reserve0 == 0 && reserve1 == 0 {
        if amount0_desired < amount0_min || amount1_desired < amount1_min {
            return Err(AmmError::InvalidArgument);
        }
        proof {
            lemma_u64_product_fits(amount0_desired, amount1_desired);
        }
        let product = (amount0_desired as u128) * (amount1_desired as u128);
        let liquidity_raw = sqrt_u128(product);
        if liquidity_raw <= MINIMUM_LIQUIDITY as u128 {
            return Err(AmmError::InvalidArgument);
        }
        proof {
            if liquidity_raw > u64::MAX {
                assert((liquidity_raw as int) * (liquidity_raw as int) > (u64::MAX as int) * (
                u64::MAX as int)) by (nonlinear_arith)
                    requires
                        liquidity_raw > u64::MAX,
                ;
            }
        }
        let minted = liquidity_raw - MINIMUM_LIQUIDITY as u128;
        return Ok(
            Deposit {
                amount0: amount0_desired,
                amount1: amount1_desired,
                liquidity: minted as u64,
                lock_minimum: true,
            },
        );
    }
    let reserve0_u128 = reserve0 as u128;
    let reserve1_u128 = reserve1 as u128;
    let amount0_desired_u128 = amount0_desired as u128;
    let amount1_desired_u128 = amount1_desired as u128;
    proof {
        lemma_u64_product_fits(amount0_desired, reserve1);
        lemma_u64_product_fits(amount1_desired, reserve0);
    }
    let amount1_optimal = quote(amount0_desired_u128, reserve0_u128, reserve1_u128)?;
    let (amount0_used, amount1_used) = if amount1_optimal <= amount1_desired_u128 {
        if amount1_optimal < amount1_min as u128 {
            return Err(AmmError::InvalidArgument);
        }
        (amount0_desired_u128, amount1_optimal)
    } else {
        let amount0_optimal = quote(amount1_desired_u128, reserve1_u128, reserve0_u128)?;
        if amount0_optimal > amount0_desired_u128 {
            return Err(AmmError::InvalidArgument);
        }
        if amount0_optimal < amount0_min as u128 {
            return Err(AmmError::InvalidArgument);
        }
        (amount0_optimal, amount1_desired_u128)
    };
    proof {
        lemma_u64_product_fits(amount0_used as u64, total_supply);
        lemma_u64_product_fits(amount1_used as u64, total_supply);
    }
    let liquidity0 = amount0_used * (total_supply as u128) / reserve0_u128;
    let liquidity1 = amount1_used * (total_supply as u128) / reserve1_u128;
    let liquidity = min_u128(liquidity0, liquidity1);
    if liquidity == 0 {
        return Err(AmmError::InvalidArgument);
    }
    if liquidity > u64::MAX as u128 {
        return Err(AmmError::ArithmeticOverflow);
    }
    Ok(
        Deposit {
            amount0: amount0_used as u64,
            amount1: amount1_used as u64,
            liquidity: liquidity as u64,
            lock_minimum: false,
        },
    )
}

// ---------------------------------------------------------------------------
// Removing liquidity
// ---------------------------------------------------------------------------

/// The outcome of burning `liquidity` LP tokens against the vault balances:
/// the amounts of token0 and token1 paid out.
pub open spec fn remove_liquidity_spec(
    liquidity: int,
    balance0: int,
    balance1: int,
    total_supply: int,
    amount0_min: int,
    amount1_min: int,
) -> Result<(int, int), AmmError> {
    if balance0 == 0 || balance1 == 0 {
        Err(AmmError::InvalidAccountData)
    } else if total_supply == 0 {
        Err(AmmError::InvalidAccountData)
    } else if liquidity >= total_supply {
        Err(AmmError::InvalidArgument)
    } else {
        let amount0 = liquidity * balance0 / total_supply;
        let amount1 = liquidity * balance1 / total_supply;
        if amount0 == 0 || amount1 == 0 {
            Err(AmmError::InvalidArgument)
        } else if amount0 < amount0_min || amount1 < amount1_min {
            Err(AmmError::InvalidArgument)
        } else {
            Ok((amount0, amount1))
        }
    }
}

/// A share `liquidity / supply < 1` of a balance is less than the balance.
proof fn lemma_share_below(liquidity: int, balance: int, supply: int)
    requires
        0 <= liquidity < supply,
        balance > 0,
    ensures
        liquidity * balance / supply < balance,
        liquidity * balance / supply >= 0,
{
    assert(liquidity * balance < supply * balance) by (nonlinear_arith)
        requires
            0 <= liquidity < supply,
            balance > 0,
    ;
    assert(liquidity * balance >= 0) by (nonlinear_arith)
        requires
            0 <= liquidity,
            balance > 0,
    ;
    assert(supply * balance == balance * supply) by (nonlinear_arith);
    vstd::arithmetic::div_mod::lemma_div_by_multiple_is_strongly_ordered(
        liquidity * balance,
        supply * balance,
        balance,
        supply,
    );
    vstd::arithmetic::div_mod::lemma_div_multiples_vanish(balance, supply);
    vstd::arithmetic::div_mod::lemma_div_pos_is_pos(liquidity * balance, supply);
}

/// Prices a withdrawal of `liquidity` LP tokens.
pub fn remove_liquidity_amounts(
    liquidity: u64,
    balance0: u64,
    balance1: u64,
    total_supply: u64,
    amount0_min: u64,
    amount1_min: u64,
) -> (r: Result<(u64, u64), AmmError>)
    ensures
        match (
            r,
            remove_liquidity_spec(
                liquidity as int,
                balance0 as int,
                balance1 as int,
                total_supply as int,
                amount0_min as int,
                amount1_min as int,
            ),
        ) {
            (Ok((a, b)), Ok((c, d))) => a == c && b == d,
            (Err(e), Err(f)) => e == f,
            _ => false,
        },
        r matches Ok((a, b)) ==> a < balance0 && b < balance1,
{
    if balance0 == 0 || balance1 == 0 {
        return Err(AmmError::InvalidAccountData);
    }
    if total_supply == 0 {
        return Err(AmmError::InvalidAccountData);
    }
    if liquidity >= total_supply {
        return Err(AmmError::InvalidArgument);
    }
    proof {
        lemma_u64_product_fits(liquidity, balance0);
        lemma_u64_product_fits(liquidity, balance1);
        lemma_share_below(liquidity as int, balance0 as int, total_supply as int);
        lemma_share_below(liquidity as int, balance1 as int, total_supply as int);
    }
    let amount0 = (liquidity as u128) * (balance0 as u128) / (total_supply as u128);
    let amount1 = (liquidity as u128) * (balance1 as u128) / (total_supply as u128);
    let amount0 = amount0 as u64;
    let amount1 = amount1 as u64;
    if amount0 == 0 || amount1 == 0 {
        return Err(AmmError::InvalidArgument);
    }
    if amount0 < amount0_min || amount1 < amount1_min {
        return Err(AmmError::InvalidArgument);
    }
    Ok((amount0, amount1))
}

// ---------------------------------------------------------------------------
// Swapping
// ---------------------------------------------------------------------------

/// The checks made on a swap request before any token moves.
pub open spec fn swap_request_spec(reserve0: int, reserve1: int, amount0_out: int, amount1_out: int) -> Result<
    (),
    AmmError,
> {
    if reserve0 == 0 || reserve1 == 0 {
        Err(AmmError::InvalidAccountData)
    } else if amount0_out >= reserve0 || amount1_out >= reserve1 {
        Err(AmmError::InvalidArgument)
    } else {
        Ok(())
    }
}

/// Checks a swap request against the reserves before any token moves.
pub fn check_swap_request(reserve0: u64, reserve1: u64, amount0_out: u64, amount1_out: u64) -> (r:
    Result<(), AmmError>)
    ensures
        r == swap_request_spec(reserve0 as int, reserve1 as int, amount0_out as int, amount1_out as int),
{
    if reserve0 == 0 || reserve1 == 0 {
        return Err(AmmError::InvalidAccountData);
    }
    if amount0_out >= reserve0 || amount1_out >= reserve1 {
        return Err(AmmError::InvalidArgument);
    }
    Ok(())
}

/// The input inferred from a vault balance: what exceeds the reserve left after
/// the output was sent.
pub open spec fn amount_in_spec(balance: int, reserve: int, amount_out: int) -> int {
    if balance > reserve - amount_out {
        balance - (reserve - amount_out)
    } else {
        0
    }
}

/// A balance scaled by the fee denominator, less the fee on the input.
pub open spec fn adjusted_balance(balance: int, amount_in: int) -> int {
    balance * FEE_DENOMINATOR - amount_in * SWAP_FEE_BPS
}

/// The checks made once the output has been sent and the new balances are known.
pub open spec fn swap_settle_spec(
    reserve0: int,
    reserve1: int,
    amount0_out: int,
    amount1_out: int,
    balance0: int,
    balance1: int,
) -> Result<(), AmmError> {
    let amount0_in = amount_in_spec(balance0, reserve0, amount0_out);
    let amount1_in = amount_in_spec(balance1, reserve1, amount1_out);
    let lhs = adjusted_balance(balance0, amount0_in) * adjusted_balance(balance1, amount1_in);
    let rhs = reserve0 * reserve1 * FEE_DENOMINATOR * FEE_DENOMINATOR;
    if amount0_in == 0 && amount1_in == 0 {
        Err(AmmError::InvalidArgument)
    } else if lhs > u128::MAX {
        Err(AmmError::ArithmeticOverflow)
    } else if reserve0 * reserve1 * FEE_DENOMINATOR > u128::MAX || rhs > u128::MAX {
        Err(AmmError::ArithmeticOverflow)
    } else if lhs < rhs {
        Err(AmmError::InvalidArgument)
    } else {
        Ok(())
    }
}

/// Infers the swap input from the new balances and checks the constant-product
/// invariant with the fee charged on the input.
pub fn check_swap_settlement(
    reserve0: u64,
    reserve1: u64,
    amount0_out: u64,
    amount1_out: u64,
    balance0: u64,
    balance1: u64,
) -> (r: Result<(), AmmError>)
    requires
        amount0_out < reserve0,
        amount1_out < reserve1,
    ensures
        r == swap_settle_spec(
            reserve0 as int,
            reserve1 as int,
            amount0_out as int,
            amount1_out as int,
            balance0 as int,
            balance1 as int,
        ),
{
    let reserve0_after_out = reserve0 - amount0_out;
    let reserve1_after_out = reserve1 - amount1_out;
    let amount0_in = if balance0 > reserve0_after_out {
        balance0 - reserve0_after_out
    } else {
        0
    };
    let amount1_in = if balance1 > reserve1_after_out {
        balance1 - reserve1_after_out
    } else {
        0
    };
    if amount0_in == 0 && amount1_in == 0 {
        return Err(AmmError::InvalidArgument);
    }
    let fee_bps = swap_fee_bps();
    let balance0_adjusted = (balance0 as u128) * FEE_DENOMINATOR - (amount0_in as u128) * fee_bps;
    let balance1_adjusted = (balance1 as u128) * FEE_DENOMINATOR - (amount1_in as u128) * fee_bps;
    let lhs = match balance0_adjusted.checked_mul(balance1_adjusted) {
        Some(v) => v,
        None => {
            return Err(AmmError::ArithmeticOverflow);
        },
    };
    proof {
        lemma_u64_product_fits(reserve0, reserve1);
    }
    let k = (reserve0 as u128) * (reserve1 as u128);
    let k_scaled = match k.checked_mul(FEE_DENOMINATOR) {
        Some(v) => v,
        None => {
            return Err(AmmError::ArithmeticOverflow);
        },
    };
    let rhs = match k_scaled.checked_mul(FEE_DENOMINATOR) {
        Some(v) => v,
        None => {
            return Err(AmmError::ArithmeticOverflow);
        },
    };
    if lhs < rhs {
        return Err(AmmError::InvalidArgument);
    }
    Ok(())
}

// ---------------------------------------------------------------------------
// Reserves and time-weighted prices
// ---------------------------------------------------------------------------

/// The Q64.64 spot price of one token in the other: `numerator / denominator`.
pub open spec fn price_x64(numerator: int, denominator: int) -> int {
    numerator * Q64 / denominator
}

/// The new pair state after recording balances at `timestamp`, accumulating
/// the prices of the old reserves over the time since the last update.
pub open spec fn twap_update_spec(s: PairState, timestamp: int, balance0: u64, balance1: u64) -> Result<
    PairState,
    AmmError,
> {
    let reserve0 = s.reserve0 as int;
    let reserve1 = s.reserve1 as int;
    if s.block_timestamp_last == 0 {
        Ok(PairState { reserve0: balance0, reserve1: balance1, block_timestamp_last: timestamp as u64, ..s })
    } else if timestamp < s.block_timestamp_last {
        Err(AmmError::ArithmeticOverflow)
    } else {
        let elapsed = timestamp - s.block_timestamp_last;
        if elapsed > 0 && reserve0 > 0 && reserve1 > 0 {
            let increment0 = price_x64(reserve1, reserve0) * elapsed;
            let increment1 = price_x64(reserve0, reserve1) * elapsed;
            if increment0 > u128::MAX || s.price0_cumulative_last + increment0 > u128::MAX
                || increment1 > u128::MAX || s.price1_cumulative_last + increment1 > u128::MAX {
                Err(AmmError::ArithmeticOverflow)
            } else {
                Ok(
                    PairState {
                        reserve0: balance0,
                        reserve1: balance1,
                        block_timestamp_last: timestamp as u64,
                        price0_cumulative_last: (s.price0_cumulative_last + increment0) as u128,
                        price1_cumulative_last: (s.price1_cumulative_last + increment1) as u128,
                        ..s
                    },
                )
            }
        } else {
            Ok(PairState { reserve0: balance0, reserve1: balance1, block_timestamp_last: timestamp as u64, ..s })
        }
    }
}

/// What reading the clock sysvar gave: the account's key, and its Unix
/// timestamp when its data could be read as a clock.
#[derive(Clone, Copy, Debug)]
pub struct ClockReading {
    pub key: crate::key::Key,
    pub unix_timestamp: Option<i64>,
}

/// The outcome of updating reserves with a clock reading.
pub open spec fn update_reserves_spec(
    s: PairState,
    clock_key_ok: bool,
    unix_timestamp: Option<i64>,
    balance0: u64,
    balance1: u64,
) -> Result<PairState, AmmError> {
    if !clock_key_ok {
        Err(AmmError::InvalidAccountData)
    } else {
        match unix_timestamp {
            None => Err(AmmError::InvalidAccountData),
            Some(t) => if t < 0 {
                Err(AmmError::InvalidAccountData)
            } else {
                twap_update_spec(s, t as int, balance0, balance1)
            },
        }
    }
}

/// Updates pair reserves and accumulates TWAP observations from prior reserves.
///
/// The reading must come from the clock sysvar's account.
pub fn update_reserves_and_twap(
    pair_state: &mut PairState,
    clock: &ClockReading,
    balance0: u64,
    balance1: u64,
) -> (r: Result<(), AmmError>)
    ensures
        match update_reserves_spec(
            *old(pair_state),
            clock.key@ == crate::chain::clock_sysvar_bytes(),
            clock.unix_timestamp,
            balance0,
            balance1,
        ) {
            Ok(t) => r is Ok && *final(pair_state) == t,
            Err(e) => r == Err::<(), AmmError>(e) && *final(pair_state) == *old(pair_state),
        },
{
    if !clock.key.equals(&crate::chain::clock_sysvar_id()) {
        return Err(AmmError::InvalidAccountData);
    }
    let timestamp = match clock.unix_timestamp {
        None => {
            return Err(AmmError::InvalidAccountData);
        },
        Some(t) => t,
    };
    if timestamp < 0 {
        return Err(AmmError::InvalidAccountData);
    }
    let current_timestamp = timestamp as u64;
    let reserve0 = pair_state.reserve0;
    let reserve1 = pair_state.reserve1;
    let last_timestamp = pair_state.block_timestamp_last;
    if last_timestamp == 0 {
        pair_state.reserve0 = balance0;
        pair_state.reserve1 = balance1;
        pair_state.block_timestamp_last = current_timestamp;
        return Ok(());
    }
    if current_timestamp < last_timestamp {
        return Err(AmmError::ArithmeticOverflow);
    }
    let time_elapsed = current_timestamp - last_timestamp;
    if time_elapsed > 0 && reserve0 > 0 && reserve1 > 0 {
        proof {
            lemma_u64_product_fits(reserve1, u64::MAX);
            lemma_u64_product_fits(reserve0, u64::MAX);
            assert((reserve1 as int) * (Q64 as int) <= u128::MAX) by (nonlinear_arith)
                requires
                    reserve1 <= u64::MAX,
            ;
            assert((reserve0 as int) * (Q64 as int) <= u128::MAX) by (nonlinear_arith)
                requires
                    reserve0 <= u64::MAX,
            ;
        }
        let price0_x64 = (reserve1 as u128) * Q64 / (reserve0 as u128);
        let price1_x64 = (reserve0 as u128) * Q64 / (reserve1 as u128);
        let increment0 = match price0_x64.checked_mul(time_elapsed as u128) {
            Some(v) => v,
            None => {
                return Err(AmmError::ArithmeticOverflow);
            },
        };
        let price0 = match pair_state.price0_cumulative_last.checked_add(increment0) {
            Some(v) => v,
            None => {
                return Err(AmmError::ArithmeticOverflow);
            },
        };
        let increment1 = match price1_x64.checked_mul(time_elapsed as u128) {
            Some(v) => v,
            None => {
                return Err(AmmError::ArithmeticOverflow);
            },
        };
        let price1 = match pair_state.price1_cumulative_last.checked_add(increment1) {
            Some(v) => v,
            None => {
                return Err(AmmError::ArithmeticOverflow);
            },
        };
        pair_state.price0_cumulative_last = price0;
        pair_state.price1_cumulative_last = price1;
    }
    pair_state.reserve0 = balance0;
    pair_state.reserve1 = balance1;
    pair_state.block_timestamp_last = current_timestamp;
    Ok(())
}

/// The vault balance above the cached reserve, which `skim` hands out.
pub fn excess_balance(balance: u64, reserve: u64) -> (r: u64)
    ensures
        r == (if balance > reserve {
            balance - reserve
        } else {
            0
        }),
{
    balance.saturating_sub(reserve)
}

} // verus!
