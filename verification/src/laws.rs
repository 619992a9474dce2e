//! Properties of the pool that span its functions.

use vstd::prelude::*;

use crate::amm::{
    add_liquidity_spec, adjusted_balance, amount_in_spec, deposit_amounts_spec, fee_from_roots_spec,
    fee_roots_spec, price_x64, protocol_fee_spec, quote_spec, remove_liquidity_spec,
    swap_request_spec, swap_settle_spec, update_reserves_spec, Q64,
};
use crate::cmd::{cmd_bytes, cmd_from_bytes, lemma_cmd_codec, Cmd};
use crate::constants::{FEE_DENOMINATOR, MINIMUM_LIQUIDITY, SWAP_FEE_BPS};
use crate::error::AmmError;
use crate::math::{is_floor_sqrt, isqrt, lemma_isqrt, quote_value};
use crate::chain::unpacked_mint_supply;
use crate::constants::program_admin_bytes;
use crate::instructions::lib::mint_fee_spec;
use crate::state::{
    factory_state_bytes, factory_state_from_bytes, lemma_factory_state_codec,
    lemma_pair_state_codec, pair_state_bytes, pair_state_from_bytes, FactoryState, PairState,
};

verus! {

/// Reading back a written pair state gives the same state.
pub proof fn lemma_pair_state_roundtrip(s: PairState)
    ensures
        pair_state_from_bytes(pair_state_bytes(s)) == Some(s),
{
    lemma_pair_state_codec(s, s);
    let t = choose|t: PairState| #[trigger] pair_state_bytes(t) == pair_state_bytes(s);
    lemma_pair_state_codec(s, t);
}

/// Reading back a written factory state gives the same state.
pub proof fn lemma_factory_state_roundtrip(s: FactoryState)
    ensures
        factory_state_from_bytes(factory_state_bytes(s)) == Some(s),
{
    lemma_factory_state_codec(s, s);
    let t = choose|t: FactoryState| #[trigger] factory_state_bytes(t) == factory_state_bytes(s);
    lemma_factory_state_codec(s, t);
}

/// Decoding an encoded instruction gives the same instruction.
pub proof fn lemma_cmd_roundtrip(c: Cmd)
    ensures
        cmd_from_bytes(cmd_bytes(c)) == Some(c),
{
    lemma_cmd_codec(c, c);
    let d = choose|d: Cmd| #[trigger] cmd_bytes(d) == cmd_bytes(c);
    lemma_cmd_codec(c, d);
}

/// A swap that settles never lowers the constant product, and on a funded
/// pool strictly raises it: the new balances multiply to more than the old
/// reserves' product, the fee on the inferred input staying in the pool.
pub proof fn lemma_swap_never_decreases_k(
    reserve0: u64,
    reserve1: u64,
    amount0_out: u64,
    amount1_out: u64,
    balance0: u64,
    balance1: u64,
)
    requires
        amount0_out <= reserve0,
        amount1_out <= reserve1,
        swap_settle_spec(
            reserve0 as int,
            reserve1 as int,
            amount0_out as int,
            amount1_out as int,
            balance0 as int,
            balance1 as int,
        ) is Ok,
    ensures
        (balance0 as int) * (balance1 as int) >= (reserve0 as int) * (reserve1 as int),
        reserve0 > 0 && reserve1 > 0 ==> (balance0 as int) * (balance1 as int) > (reserve0 as int)
            * (reserve1 as int),
        amount_in_spec(balance0 as int, reserve0 as int, amount0_out as int) > 0 || amount_in_spec(
            balance1 as int,
            reserve1 as int,
            amount1_out as int,
        ) > 0,
{
    let in0 = amount_in_spec(balance0 as int, reserve0 as int, amount0_out as int);
    let in1 = amount_in_spec(balance1 as int, reserve1 as int, amount1_out as int);
    let a0 = adjusted_balance(balance0 as int, in0);
    let a1 = adjusted_balance(balance1 as int, in1);
    let b0 = balance0 as int;
    let b1 = balance1 as int;
    let k = (reserve0 as int) * (reserve1 as int);
    assert(in0 >= 0 && in1 >= 0);
    assert(0 <= a0 <= b0 * 10000);
    assert(0 <= a1 <= b1 * 10000);
    assert(a0 * a1 >= k * 10000 * 10000);
    assert(a0 * a1 <= (b0 * 10000) * (b1 * 10000)) by (nonlinear_arith)
        requires
            0 <= a0 <= b0 * 10000,
            0 <= a1 <= b1 * 10000,
    ;
    assert((b0 * 10000) * (b1 * 10000) == b0 * b1 * 100000000) by (nonlinear_arith);
    assert(k * 10000 * 10000 == k * 100000000) by (nonlinear_arith);
    if reserve0 > 0 && reserve1 > 0 {
        assert(k > 0) by (nonlinear_arith)
            requires
                k == (reserve0 as int) * (reserve1 as int),
                reserve0 > 0,
                reserve1 > 0,
        ;
        assert(a0 * a1 < (b0 * 10000) * (b1 * 10000)) by (nonlinear_arith)
            requires
                0 <= a0 <= b0 * 10000,
                0 <= a1 <= b1 * 10000,
                a0 * a1 >= k * 10000 * 10000,
                k > 0,
                in0 > 0 ==> a0 < b0 * 10000,
                in1 > 0 ==> a1 < b1 * 10000,
                in0 > 0 || in1 > 0,
        ;
    }
}

/// Swapping back what a swap paid out never returns more than was put in:
/// after `amount_in` of token0 is traded for `amount1_out` of token1, trading
/// those `amount1_out` back yields at most `amount_in` of token0.
pub proof fn lemma_round_trip_swap_no_gain(
    reserve0: u64,
    reserve1: u64,
    amount_in: u64,
    amount1_out: u64,
    amount0_back: u64,
)
    requires
        reserve0 + amount_in <= u64::MAX,
        swap_request_spec(reserve0 as int, reserve1 as int, 0, amount1_out as int) is Ok,
        swap_settle_spec(
            reserve0 as int,
            reserve1 as int,
            0,
            amount1_out as int,
            reserve0 + amount_in,
            reserve1 - amount1_out,
        ) is Ok,
        swap_request_spec(reserve0 + amount_in, reserve1 - amount1_out, amount0_back as int, 0) is Ok,
        swap_settle_spec(
            reserve0 + amount_in,
            reserve1 - amount1_out,
            amount0_back as int,
            0,
            reserve0 + amount_in - amount0_back,
            reserve1 as int,
        ) is Ok,
    ensures
        amount0_back <= amount_in,
{
    let r0 = reserve0 as int;
    let r1 = reserve1 as int;
    let m0 = (reserve0 + amount_in) as u64;
    let m1 = (reserve1 - amount1_out) as u64;
    let e0 = (reserve0 + amount_in - amount0_back) as u64;
    lemma_swap_never_decreases_k(reserve0, reserve1, 0, amount1_out, m0, m1);
    lemma_swap_never_decreases_k(m0, m1, amount0_back, 0, e0, reserve1);
    assert(e0 * r1 >= r0 * r1);
    assert(e0 >= r0) by (nonlinear_arith)
        requires
            e0 * r1 >= r0 * r1,
            r1 > 0,
    ;
}

/// Updating reserves records the balances and the time, leaves the pair's
/// identity and `k_last` alone, and never lowers the price accumulators.
pub proof fn lemma_update_reserves_effect(
    s: PairState,
    clock_key_ok: bool,
    unix_timestamp: Option<i64>,
    balance0: u64,
    balance1: u64,
    t: PairState,
)
    requires
        update_reserves_spec(s, clock_key_ok, unix_timestamp, balance0, balance1) == Ok::<
            PairState,
            AmmError,
        >(t),
    ensures
        t.reserve0 == balance0,
        t.reserve1 == balance1,
        unix_timestamp matches Some(now) && t.block_timestamp_last == now,
        t.is_initialized == s.is_initialized,
        t.factory == s.factory,
        t.token0_mint == s.token0_mint,
        t.token1_mint == s.token1_mint,
        t.vault0 == s.vault0,
        t.vault1 == s.vault1,
        t.lp_mint == s.lp_mint,
        t.k_last == s.k_last,
        t.price0_cumulative_last >= s.price0_cumulative_last,
        t.price1_cumulative_last >= s.price1_cumulative_last,
{
    let now = unix_timestamp->0;
    if s.block_timestamp_last != 0 && now >= s.block_timestamp_last {
        let elapsed = now - s.block_timestamp_last;
        if elapsed > 0 && s.reserve0 > 0 && s.reserve1 > 0 {
            let p0 = price_x64(s.reserve1 as int, s.reserve0 as int);
            let p1 = price_x64(s.reserve0 as int, s.reserve1 as int);
            assert(p0 >= 0) by {
                vstd::arithmetic::div_mod::lemma_div_pos_is_pos(
                    (s.reserve1 as int) * Q64,
                    s.reserve0 as int,
                );
            }
            assert(p1 >= 0) by {
                vstd::arithmetic::div_mod::lemma_div_pos_is_pos(
                    (s.reserve0 as int) * Q64,
                    s.reserve1 as int,
                );
            }
            assert(p0 * elapsed >= 0) by (nonlinear_arith)
                requires
                    p0 >= 0,
                    elapsed > 0,
            ;
            assert(p1 * elapsed >= 0) by (nonlinear_arith)
                requires
                    p1 >= 0,
                    elapsed > 0,
            ;
        }
    }
}

/// The first deposit into an empty pool uses both desired amounts, locks
/// `MINIMUM_LIQUIDITY` and mints the rest of `sqrt(amount0 * amount1)` to the
/// depositor.
pub proof fn lemma_first_deposit(
    total_supply: int,
    amount0_desired: int,
    amount1_desired: int,
    amount0_min: int,
    amount1_min: int,
    amount0: int,
    amount1: int,
    liquidity: int,
    lock_minimum: bool,
)
    requires
        add_liquidity_spec(
            0,
            0,
            total_supply,
            amount0_desired,
            amount1_desired,
            amount0_min,
            amount1_min,
        ) == Ok::<(int, int, int, bool), AmmError>((amount0, amount1, liquidity, lock_minimum)),
    ensures
        lock_minimum,
        total_supply == 0,
        amount0 == amount0_desired,
        amount1 == amount1_desired,
        liquidity + MINIMUM_LIQUIDITY == isqrt(amount0_desired * amount1_desired),
{
}

/// A deposit into a funded pool uses one desired amount in full and of the
/// other no more than desired and no less than its minimum, and mints no more LP than either token's proportional share
/// of the supply: `liquidity * reserve <= amount * supply` for both tokens.
pub proof fn lemma_deposit_proportional(
    reserve0: int,
    reserve1: int,
    total_supply: int,
    amount0_desired: int,
    amount1_desired: int,
    amount0_min: int,
    amount1_min: int,
    amount0: int,
    amount1: int,
    liquidity: int,
    lock_minimum: bool,
)
    requires
        0 <= reserve0,
        0 <= reserve1,
        0 <= total_supply,
        0 <= amount0_desired,
        0 <= amount1_desired,
        reserve0 != 0 || reserve1 != 0,
        add_liquidity_spec(
            reserve0,
            reserve1,
            total_supply,
            amount0_desired,
            amount1_desired,
            amount0_min,
            amount1_min,
        ) == Ok::<(int, int, int, bool), AmmError>((amount0, amount1, liquidity, lock_minimum)),
    ensures
        !lock_minimum,
        amount0 <= amount0_desired,
        amount1 <= amount1_desired,
        (amount0 == amount0_desired && amount1_min <= amount1) || (amount1 == amount1_desired
            && amount0_min <= amount0),
        liquidity > 0,
        liquidity * reserve0 <= amount0 * total_supply,
        liquidity * reserve1 <= amount1 * total_supply,
{
    let q1 = quote_value(amount0_desired, reserve0, reserve1);
    let q0 = quote_value(amount1_desired, reserve1, reserve0);
    assert(reserve0 > 0 && reserve1 > 0);
    assert(q0 >= 0) by {
        assert(amount1_desired * reserve0 >= 0) by (nonlinear_arith)
            requires
                amount1_desired >= 0,
                reserve0 > 0,
        ;
        vstd::arithmetic::div_mod::lemma_div_pos_is_pos(amount1_desired * reserve0, reserve1);
    }
    assert(amount0 >= 0 && amount1 >= 0);
    let l0 = amount0 * total_supply / reserve0;
    let l1 = amount1 * total_supply / reserve1;
    lemma_floor_share(amount0 * total_supply, reserve0);
    lemma_floor_share(amount1 * total_supply, reserve1);
    assert(liquidity == l0 || liquidity == l1);
    assert(liquidity <= l0 && liquidity <= l1);
    assert(liquidity * reserve0 <= l0 * reserve0) by (nonlinear_arith)
        requires
            liquidity <= l0,
            reserve0 > 0,
    ;
    assert(liquidity * reserve1 <= l1 * reserve1) by (nonlinear_arith)
        requires
            liquidity <= l1,
            reserve1 > 0,
    ;
}

/// `(n / d) * d <= n` for `d > 0`.
proof fn lemma_floor_share(n: int, d: int)
    requires
        d > 0,
    ensures
        (n / d) * d <= n,
{
    vstd::arithmetic::div_mod::lemma_fundamental_div_mod(n, d);
    vstd::arithmetic::div_mod::lemma_mod_bound(n, d);
    assert((n / d) * d == d * (n / d)) by (nonlinear_arith);
}

/// A withdrawal pays out at most the burned share of each vault, never a whole
/// vault, never the whole supply, and at least the requested minimums.
pub proof fn lemma_withdraw_pro_rata(
    liquidity: int,
    balance0: int,
    balance1: int,
    total_supply: int,
    amount0_min: int,
    amount1_min: int,
    amount0: int,
    amount1: int,
)
    requires
        0 <= liquidity,
        0 <= balance0,
        0 <= balance1,
        remove_liquidity_spec(
            liquidity,
            balance0,
            balance1,
            total_supply,
            amount0_min,
            amount1_min,
        ) == Ok::<(int, int), AmmError>((amount0, amount1)),
    ensures
        liquidity < total_supply,
        amount0 * total_supply <= liquidity * balance0,
        amount1 * total_supply <= liquidity * balance1,
        amount0 < balance0,
        amount1 < balance1,
        amount0_min <= amount0,
        amount1_min <= amount1,
{
    lemma_floor_share(liquidity * balance0, total_supply);
    lemma_floor_share(liquidity * balance1, total_supply);
    assert(amount0 * total_supply == total_supply * amount0) by (nonlinear_arith);
    assert(amount1 * total_supply == total_supply * amount1) by (nonlinear_arith);
    assert(liquidity * balance0 < total_supply * balance0) by (nonlinear_arith)
        requires
            0 <= liquidity < total_supply,
            balance0 > 0,
    ;
    assert(liquidity * balance1 < total_supply * balance1) by (nonlinear_arith)
        requires
            0 <= liquidity < total_supply,
            balance1 > 0,
    ;
    assert(amount0 < balance0) by (nonlinear_arith)
        requires
            amount0 * total_supply <= liquidity * balance0,
            liquidity * balance0 < total_supply * balance0,
            total_supply > 0,
    ;
    assert(amount1 < balance1) by (nonlinear_arith)
        requires
            amount1 * total_supply <= liquidity * balance1,
            liquidity * balance1 < total_supply * balance1,
            total_supply > 0,
    ;
}

/// The LP supply after a deposit: the supply before, the LP minted to the
/// depositor and, on a pool's first deposit, the locked minimum.
pub open spec fn supply_after_deposit(total_supply: int, liquidity: int, lock_minimum: bool) -> int {
    total_supply + liquidity + if lock_minimum {
        MINIMUM_LIQUIDITY as int
    } else {
        0
    }
}

/// A deposit cannot be withdrawn for more than it put in: burning the LP
/// tokens that a deposit minted, right after it, pays out at most the
/// deposited amount of each token (the vaults holding the reserves plus the
/// deposit).
pub proof fn lemma_deposit_withdraw_no_gain(
    reserve0: int,
    reserve1: int,
    total_supply: int,
    amount0_desired: int,
    amount1_desired: int,
    amount0_min: int,
    amount1_min: int,
    amount0: int,
    amount1: int,
    liquidity: int,
    lock_minimum: bool,
    out0_min: int,
    out1_min: int,
    out0: int,
    out1: int,
)
    requires
        0 <= reserve0,
        0 <= reserve1,
        0 <= total_supply,
        0 <= amount0_desired,
        0 <= amount1_desired,
        add_liquidity_spec(
            reserve0,
            reserve1,
            total_supply,
            amount0_desired,
            amount1_desired,
            amount0_min,
            amount1_min,
        ) == Ok::<(int, int, int, bool), AmmError>((amount0, amount1, liquidity, lock_minimum)),
        remove_liquidity_spec(
            liquidity,
            reserve0 + amount0,
            reserve1 + amount1,
            supply_after_deposit(total_supply, liquidity, lock_minimum),
            out0_min,
            out1_min,
        ) == Ok::<(int, int), AmmError>((out0, out1)),
    ensures
        out0 <= amount0,
        out1 <= amount1,
{
    let supply = supply_after_deposit(total_supply, liquidity, lock_minimum);
    let balance0 = reserve0 + amount0;
    let balance1 = reserve1 + amount1;
    if reserve0 == 0 && reserve1 == 0 {
        lemma_first_deposit(
            total_supply,
            amount0_desired,
            amount1_desired,
            amount0_min,
            amount1_min,
            amount0,
            amount1,
            liquidity,
            lock_minimum,
        );
        assert(liquidity >= 0);
        assert(supply == liquidity + MINIMUM_LIQUIDITY);
        lemma_floor_share(liquidity * balance0, supply);
        lemma_floor_share(liquidity * balance1, supply);
        assert(out0 * supply <= amount0 * supply) by (nonlinear_arith)
            requires
                out0 * supply <= liquidity * balance0,
                balance0 == amount0,
                amount0 >= 0,
                0 <= liquidity <= supply,
        ;
        assert(out1 * supply <= amount1 * supply) by (nonlinear_arith)
            requires
                out1 * supply <= liquidity * balance1,
                balance1 == amount1,
                amount1 >= 0,
                0 <= liquidity <= supply,
        ;
    } else {
        lemma_deposit_proportional(
            reserve0,
            reserve1,
            total_supply,
            amount0_desired,
            amount1_desired,
            amount0_min,
            amount1_min,
            amount0,
            amount1,
            liquidity,
            lock_minimum,
        );
        assert(supply == total_supply + liquidity);
        lemma_floor_share(liquidity * balance0, supply);
        lemma_floor_share(liquidity * balance1, supply);
        assert(out0 * supply <= amount0 * supply) by (nonlinear_arith)
            requires
                out0 * supply <= liquidity * balance0,
                balance0 == reserve0 + amount0,
                liquidity * reserve0 <= amount0 * total_supply,
                supply == total_supply + liquidity,
        ;
        assert(out1 * supply <= amount1 * supply) by (nonlinear_arith)
            requires
                out1 * supply <= liquidity * balance1,
                balance1 == reserve1 + amount1,
                liquidity * reserve1 <= amount1 * total_supply,
                supply == total_supply + liquidity,
        ;
    }
    assert(supply > 0);
    assert(out0 <= amount0) by (nonlinear_arith)
        requires
            out0 * supply <= amount0 * supply,
            supply > 0,
    ;
    assert(out1 <= amount1) by (nonlinear_arith)
        requires
            out1 * supply <= amount1 * supply,
            supply > 0,
    ;
}

/// The protocol fee is one-sixth of the growth of `sqrt(k)` since `k_last`:
/// the admin's share of the supply after minting is at most
/// `(sqrt(k) - sqrt(k_last)) / (6 sqrt(k))`, and no fee is owed when `k_last`
/// is unset or the pool has not grown.
pub proof fn lemma_protocol_fee_share(k_last: int, reserve0: int, reserve1: int, total_supply: int)
    requires
        k_last >= 0,
        reserve0 >= 0,
        reserve1 >= 0,
        total_supply >= 0,
    ensures
        ({
            let fee = protocol_fee_spec(k_last, reserve0, reserve1, total_supply);
            let root_k = isqrt(reserve0 * reserve1);
            let root_k_last = isqrt(k_last);
            &&& (k_last == 0 || root_k <= root_k_last) ==> fee == 0
            &&& (k_last != 0 && root_k > root_k_last) ==> 6 * root_k * fee <= (total_supply + fee) * (
            root_k - root_k_last)
            &&& fee >= 0
            &&& fee < total_supply || total_supply == 0
        }),
{
    assert(reserve0 * reserve1 >= 0) by (nonlinear_arith)
        requires
            reserve0 >= 0,
            reserve1 >= 0,
    ;
    lemma_isqrt(reserve0 * reserve1);
    lemma_isqrt(k_last);
    let root_k = isqrt(reserve0 * reserve1);
    let root_k_last = isqrt(k_last);
    if k_last != 0 && root_k > root_k_last {
        let fee = fee_from_roots_spec(total_supply, root_k, root_k_last);
        let d = root_k * 5 + root_k_last;
        let n = total_supply * (root_k - root_k_last);
        assert(n >= 0) by (nonlinear_arith)
            requires
                total_supply >= 0,
                root_k > root_k_last,
                n == total_supply * (root_k - root_k_last),
        ;
        vstd::arithmetic::div_mod::lemma_div_pos_is_pos(n, d);
        lemma_floor_share(n, d);
        assert(6 * root_k * fee <= (total_supply + fee) * (root_k - root_k_last)) by (nonlinear_arith)
            requires
                fee * d <= n,
                d == root_k * 5 + root_k_last,
                n == total_supply * (root_k - root_k_last),
        ;
        if total_supply > 0 {
            assert(fee < total_supply) by (nonlinear_arith)
                requires
                    fee * d <= n,
                    d == root_k * 5 + root_k_last,
                    n == total_supply * (root_k - root_k_last),
                    total_supply > 0,
                    0 <= root_k_last < root_k,
            ;
        } else {
            assert(n == 0);
        }
    }
}

/// With equal reserves the spot price is one: `2^64` in Q64.64.
pub proof fn lemma_equal_reserves_price(reserve: int)
    requires
        reserve > 0,
    ensures
        price_x64(reserve, reserve) == Q64,
{
    vstd::arithmetic::div_mod::lemma_div_multiples_vanish(Q64 as int, reserve);
    assert(reserve * Q64 == Q64 * reserve) by (nonlinear_arith);
}

// ---------------------------------------------------------------------------
// The operations' rules, over all inputs
// ---------------------------------------------------------------------------

/// What a swap paid into a vault: its balance above what its reserve keeps
/// once the output has left.
pub open spec fn paid_in(balance: int, reserve: int, out: int) -> int {
    if balance + out > reserve {
        balance + out - reserve
    } else {
        0
    }
}

/// The rule a swap settles by. Nothing paid in is refused as an invalid
/// argument. Otherwise, with the balances each less 0.3% of what was paid into
/// them and everything scaled by 10000, the swap settles exactly when their
/// product is at least the old reserves' product; overflow is reported only
/// when one of these two products does not fit in a `u128`.
pub proof fn lemma_swap_settlement_rule(
    reserve0: u64,
    reserve1: u64,
    amount0_out: u64,
    amount1_out: u64,
    balance0: u64,
    balance1: u64,
)
    requires
        amount0_out < reserve0,
        amount1_out < reserve1,
    ensures
        ({
            let in0 = paid_in(balance0 as int, reserve0 as int, amount0_out as int);
            let in1 = paid_in(balance1 as int, reserve1 as int, amount1_out as int);
            let lhs = (balance0 * 10000 - in0 * 3) * (balance1 * 10000 - in1 * 3);
            let rhs = reserve0 * reserve1 * 100000000;
            let r = swap_settle_spec(
                reserve0 as int,
                reserve1 as int,
                amount0_out as int,
                amount1_out as int,
                balance0 as int,
                balance1 as int,
            );
            &&& in0 == 0 && in1 == 0 ==> r == Err::<(), AmmError>(AmmError::InvalidArgument)
            &&& (in0 > 0 || in1 > 0) && lhs <= u128::MAX && rhs <= u128::MAX ==> r == (if lhs >= rhs {
                Ok::<(), AmmError>(())
            } else {
                Err::<(), AmmError>(AmmError::InvalidArgument)
            })
            &&& (in0 > 0 || in1 > 0) && (lhs > u128::MAX || rhs > u128::MAX) ==> r == Err::<
                (),
                AmmError,
            >(AmmError::ArithmeticOverflow)
        }),
{
    let r0 = reserve0 as int;
    let r1 = reserve1 as int;
    assert(r0 * r1 * 10000 * 10000 == r0 * r1 * 100000000) by (nonlinear_arith);
    assert(r0 * r1 * 10000 <= r0 * r1 * 100000000) by (nonlinear_arith)
        requires
            r0 >= 0,
            r1 >= 0,
    ;
}

/// The rule of a pool's first deposit, for all amounts: below either minimum
/// it is refused; otherwise both amounts are taken in full, `MINIMUM_LIQUIDITY`
/// is locked, and the depositor gets `l` LP tokens where `l + 1000` is the
/// integer square root of the product of the amounts (taken without bound);
/// when that root is not above 1000, the deposit is refused.
pub proof fn lemma_first_deposit_rule(amount0: u64, amount1: u64, amount0_min: u64, amount1_min: u64)
    ensures
        amount0 < amount0_min || amount1 < amount1_min ==> add_liquidity_spec(
            0,
            0,
            0,
            amount0 as int,
            amount1 as int,
            amount0_min as int,
            amount1_min as int,
        ) == Err::<(int, int, int, bool), AmmError>(AmmError::InvalidArgument),
        amount0 >= amount0_min && amount1 >= amount1_min && amount0 * amount1 < 1001 * 1001
            ==> add_liquidity_spec(
            0,
            0,
            0,
            amount0 as int,
            amount1 as int,
            amount0_min as int,
            amount1_min as int,
        ) == Err::<(int, int, int, bool), AmmError>(AmmError::InvalidArgument),
        amount0 >= amount0_min && amount1 >= amount1_min && amount0 * amount1 >= 1001 * 1001
            ==> (add_liquidity_spec(
            0,
            0,
            0,
            amount0 as int,
            amount1 as int,
            amount0_min as int,
            amount1_min as int,
        ) matches Ok((a0, a1, l, locked)) && a0 == amount0 && a1 == amount1 && locked && 0 < l
            && (l + 1000) * (l + 1000) <= amount0 * amount1 < (l + 1001) * (l + 1001)),
{
    let p = amount0 * amount1;
    assert(p >= 0) by (nonlinear_arith)
        requires
            p == amount0 * amount1,
            amount0 >= 0,
            amount1 >= 0,
    ;
    lemma_isqrt(p);
    let q = isqrt(p);
    if p < 1001 * 1001 {
        if q > 1000 {
            assert(q * q >= 1001 * 1001) by (nonlinear_arith)
                requires
                    q >= 1001,
            ;
        }
    } else {
        if q <= 1000 {
            assert((q + 1) * (q + 1) <= 1001 * 1001) by (nonlinear_arith)
                requires
                    0 <= q <= 1000,
            ;
        }
    }
}

/// The rule of a withdrawal: it is never refused for overflow; when less than
/// the whole supply is burned from nonempty vaults, it pays
/// `liquidity * balance / supply` of each token (products taken without bound),
/// each below its vault's balance, exactly when both are positive and meet
/// their minimums, and is refused as an invalid argument otherwise.
pub proof fn lemma_withdrawal_rule(
    liquidity: u64,
    balance0: u64,
    balance1: u64,
    total_supply: u64,
    amount0_min: u64,
    amount1_min: u64,
)
    ensures
        remove_liquidity_spec(
            liquidity as int,
            balance0 as int,
            balance1 as int,
            total_supply as int,
            amount0_min as int,
            amount1_min as int,
        ) != Err::<(int, int), AmmError>(AmmError::ArithmeticOverflow),
        liquidity < total_supply && balance0 > 0 && balance1 > 0 ==> ({
            let a0 = liquidity * balance0 / (total_supply as int);
            let a1 = liquidity * balance1 / (total_supply as int);
            let r = remove_liquidity_spec(
                liquidity as int,
                balance0 as int,
                balance1 as int,
                total_supply as int,
                amount0_min as int,
                amount1_min as int,
            );
            &&& 0 <= a0 < balance0
            &&& 0 <= a1 < balance1
            &&& a0 > 0 && a1 > 0 && a0 >= amount0_min && a1 >= amount1_min ==> r == Ok::<
                (int, int),
                AmmError,
            >((a0, a1))
            &&& !(a0 > 0 && a1 > 0 && a0 >= amount0_min && a1 >= amount1_min) ==> r == Err::<
                (int, int),
                AmmError,
            >(AmmError::InvalidArgument)
        }),
{
    if liquidity < total_supply && balance0 > 0 && balance1 > 0 {
        let l = liquidity as int;
        let s = total_supply as int;
        assert(0 <= l * balance0 < s * balance0) by (nonlinear_arith)
            requires
                0 <= l < s,
                balance0 > 0,
        ;
        assert(0 <= l * balance1 < s * balance1) by (nonlinear_arith)
            requires
                0 <= l < s,
                balance1 > 0,
        ;
        lemma_floor_share(l * balance0, s);
        lemma_floor_share(l * balance1, s);
        vstd::arithmetic::div_mod::lemma_div_pos_is_pos(l * balance0, s);
        vstd::arithmetic::div_mod::lemma_div_pos_is_pos(l * balance1, s);
        let a0 = l * balance0 / s;
        let a1 = l * balance1 / s;
        assert(a0 < balance0) by (nonlinear_arith)
            requires
                a0 * s <= l * balance0,
                l * balance0 < s * balance0,
                s > 0,
        ;
        assert(a1 < balance1) by (nonlinear_arith)
            requires
                a1 * s <= l * balance1,
                l * balance1 < s * balance1,
                s > 0,
        ;
    }
}

/// The rule of the price accumulators: an update at time `now` after a
/// recorded one, with both old reserves positive, adds to price0's
/// accumulator `floor(reserve1 * 2^64 / reserve0)` and to price1's
/// `floor(reserve0 * 2^64 / reserve1)`, each times the seconds elapsed,
/// whichever reserve is the larger; it records the balances and `now`, and is
/// refused for overflow exactly when a new accumulator would not fit in a
/// `u128`.
pub proof fn lemma_twap_rule(s: PairState, now: i64, balance0: u64, balance1: u64)
    requires
        s.block_timestamp_last != 0,
        now >= s.block_timestamp_last,
        s.reserve0 > 0,
        s.reserve1 > 0,
    ensures
        ({
            let elapsed = now - s.block_timestamp_last;
            let p0 = s.price0_cumulative_last + (s.reserve1 * 18446744073709551616) / (
            s.reserve0 as int) * elapsed;
            let p1 = s.price1_cumulative_last + (s.reserve0 * 18446744073709551616) / (
            s.reserve1 as int) * elapsed;
            let r = update_reserves_spec(s, true, Some(now), balance0, balance1);
            &&& p0 <= u128::MAX && p1 <= u128::MAX ==> (r matches Ok(t) && t.price0_cumulative_last
                == p0 && t.price1_cumulative_last == p1 && t.reserve0 == balance0 && t.reserve1
                == balance1 && t.block_timestamp_last == now && t.k_last == s.k_last)
            &&& (p0 > u128::MAX || p1 > u128::MAX) ==> r == Err::<PairState, AmmError>(
                AmmError::ArithmeticOverflow,
            )
        }),
{
    let elapsed = now - s.block_timestamp_last;
    let q0 = (s.reserve1 * 18446744073709551616) / (s.reserve0 as int);
    let q1 = (s.reserve0 * 18446744073709551616) / (s.reserve1 as int);
    vstd::arithmetic::div_mod::lemma_div_pos_is_pos(s.reserve1 * 18446744073709551616, s.reserve0 as int);
    vstd::arithmetic::div_mod::lemma_div_pos_is_pos(s.reserve0 * 18446744073709551616, s.reserve1 as int);
    assert(q0 * elapsed >= 0 && q1 * elapsed >= 0) by (nonlinear_arith)
        requires
            q0 >= 0,
            q1 >= 0,
            elapsed >= 0,
    ;
    assert(price_x64(s.reserve1 as int, s.reserve0 as int) == q0);
    assert(price_x64(s.reserve0 as int, s.reserve1 as int) == q1);
    if elapsed == 0 {
        assert(q0 * elapsed == 0 && q1 * elapsed == 0) by (nonlinear_arith)
            requires
                elapsed == 0,
        ;
    }
}

/// The rule of a deposit into a funded pool, for all amounts: the desired
/// token0 amount is used in full with token1 at the pool's ratio
/// (`amount0_desired * reserve1 / reserve0`) when that fits within the desired
/// token1 amount, and otherwise the desired token1 amount with token0 at the
/// ratio; the amount taken at the ratio must meet its minimum (and, for
/// token0, not exceed what was desired); the depositor gets the smaller of the
/// two proportional shares of the supply, `amount * supply / reserve`, which
/// must be positive and fit in a `u64`.
pub proof fn lemma_later_deposit_rule(
    reserve0: u64,
    reserve1: u64,
    total_supply: u64,
    amount0_desired: u64,
    amount1_desired: u64,
    amount0_min: u64,
    amount1_min: u64,
)
    requires
        reserve0 > 0,
        reserve1 > 0,
        amount0_desired > 0,
        amount1_desired > 0,
    ensures
        ({
            let q1 = amount0_desired * reserve1 / (reserve0 as int);
            let q0 = amount1_desired * reserve0 / (reserve1 as int);
            let first = q1 <= amount1_desired;
            let a0 = if first {
                amount0_desired as int
            } else {
                q0
            };
            let a1 = if first {
                q1
            } else {
                amount1_desired as int
            };
            let s0 = a0 * total_supply / (reserve0 as int);
            let s1 = a1 * total_supply / (reserve1 as int);
            let l = if s0 <= s1 {
                s0
            } else {
                s1
            };
            add_liquidity_spec(
                reserve0 as int,
                reserve1 as int,
                total_supply as int,
                amount0_desired as int,
                amount1_desired as int,
                amount0_min as int,
                amount1_min as int,
            ) == (if (first && q1 < amount1_min) || (!first && (q0 > amount0_desired || q0
                < amount0_min)) || l == 0 {
                Err::<(int, int, int, bool), AmmError>(AmmError::InvalidArgument)
            } else if l > u64::MAX {
                Err::<(int, int, int, bool), AmmError>(AmmError::ArithmeticOverflow)
            } else {
                Ok::<(int, int, int, bool), AmmError>((a0, a1, l, false))
            })
        }),
{
    crate::amm::lemma_u64_product_fits(amount0_desired, reserve1);
    crate::amm::lemma_u64_product_fits(amount1_desired, reserve0);
}

/// The rule of the protocol fee, for all pair states: paid only to the admin,
/// it is zero when `k_last` is unset or `sqrt(k)` has not grown past
/// `sqrt(k_last)` (integer roots), and otherwise
/// `supply * (sqrt(k) - sqrt(k_last)) / (5 * sqrt(k) + sqrt(k_last))` LP
/// tokens, `supply` being the LP mint's supply.
pub proof fn lemma_protocol_fee_rule(
    s: PairState,
    lp_mint_data: Seq<u8>,
    supply: u64,
    root_k: int,
    root_k_last: int,
    fee_recipient: Seq<u8>,
)
    requires
        unpacked_mint_supply(lp_mint_data) == Some(supply),
        0 <= root_k,
        root_k * root_k <= s.reserve0 * s.reserve1 < (root_k + 1) * (root_k + 1),
        0 <= root_k_last,
        root_k_last * root_k_last <= s.k_last < (root_k_last + 1) * (root_k_last + 1),
    ensures
        fee_recipient != program_admin_bytes() ==> mint_fee_spec(s, fee_recipient, lp_mint_data)
            == Err::<u128, AmmError>(AmmError::InvalidArgument),
        fee_recipient == program_admin_bytes() ==> (mint_fee_spec(s, fee_recipient, lp_mint_data)
            matches Ok(fee) && fee == (if s.k_last == 0 || root_k <= root_k_last {
            0
        } else {
            supply * (root_k - root_k_last) / (5 * root_k + root_k_last)
        })),
{
    let k = s.reserve0 * s.reserve1;
    assert(k >= 0) by (nonlinear_arith)
        requires
            k == s.reserve0 * s.reserve1,
            s.reserve0 >= 0,
            s.reserve1 >= 0,
    ;
    lemma_isqrt(k);
    lemma_isqrt(s.k_last as int);
    assert(is_floor_sqrt(k, root_k));
    assert(is_floor_sqrt(s.k_last as int, root_k_last));
    assert(isqrt(k) == root_k);
    assert(isqrt(s.k_last as int) == root_k_last);
    if s.k_last != 0 && root_k > root_k_last {
        let f = supply * (root_k - root_k_last) / (5 * root_k + root_k_last);
        lemma_fee_below_supply(supply as int, root_k, root_k_last);
        assert(f == fee_from_roots_spec(supply as int, root_k, root_k_last));
        assert(0 <= f <= supply);
    }
}

/// The fee share is a nonnegative amount no larger than the supply.
proof fn lemma_fee_below_supply(supply: int, root_k: int, root_k_last: int)
    requires
        supply >= 0,
        0 <= root_k_last < root_k,
    ensures
        0 <= supply * (root_k - root_k_last) / (5 * root_k + root_k_last) <= supply,
{
    let n = supply * (root_k - root_k_last);
    let d = 5 * root_k + root_k_last;
    assert(0 <= n <= supply * d) by (nonlinear_arith)
        requires
            n == supply * (root_k - root_k_last),
            d == 5 * root_k + root_k_last,
            supply >= 0,
            0 <= root_k_last < root_k,
    ;
    vstd::arithmetic::div_mod::lemma_div_pos_is_pos(n, d);
    vstd::arithmetic::div_mod::lemma_div_is_ordered(n, supply * d, d);
    vstd::arithmetic::div_mod::lemma_div_multiples_vanish(supply, d);
}

} // verus!
