//! Integer arithmetic used by the pool: square roots, proportional quotes and
//! narrowing conversions.

use vstd::prelude::*;
use vstd::arithmetic::div_mod::*;

use crate::error::AmmError;

verus! {

/// `r` is the integer square root of `y`: the largest `r` with `r * r <= y`.
pub open spec fn is_floor_sqrt(y: int, r: int) -> bool {
    &&& 0 <= r
    &&& r * r <= y
    &&& y < (r + 1) * (r + 1)
}

/// The integer square root of `y >= 0`.
pub open spec fn isqrt(y: int) -> int {
    choose|r: int| #[trigger] is_floor_sqrt(y, r)
}

/// Each `y >= 0` has exactly one integer square root.
pub proof fn lemma_isqrt(y: int)
    requires
        y >= 0,
    ensures
        is_floor_sqrt(y, isqrt(y)),
        forall|r: int| #[trigger] is_floor_sqrt(y, r) ==> r == isqrt(y),
{
    lemma_floor_sqrt_exists(y);
    assert forall|r: int| #[trigger] is_floor_sqrt(y, r) implies r == isqrt(y) by {
        lemma_floor_sqrt_unique(y, r, isqrt(y));
    }
}

proof fn lemma_floor_sqrt_exists(y: int)
    requires
        y >= 0,
    ensures
        exists|r: int| #[trigger] is_floor_sqrt(y, r),
    decreases y,
{
    if y == 0 {
        assert(is_floor_sqrt(0, 0));
    } else {
        lemma_floor_sqrt_exists(y - 1);
        let r = choose|r: int| #[trigger] is_floor_sqrt(y - 1, r);
        if y < (r + 1) * (r + 1) {
            assert(is_floor_sqrt(y, r));
        } else {
            assert((r + 1) * (r + 1) == y);
            assert(y < (r + 2) * (r + 2)) by (nonlinear_arith)
                requires
                    (r + 1) * (r + 1) == y,
                    r >= 0,
            ;
            assert(is_floor_sqrt(y, r + 1));
        }
    }
}

proof fn lemma_floor_sqrt_unique(y: int, r: int, s: int)
    requires
        is_floor_sqrt(y, r),
        is_floor_sqrt(y, s),
    ensures
        r == s,
{
    if r < s {
        assert((r + 1) * (r + 1) <= s * s) by (nonlinear_arith)
            requires
                0 <= r + 1 <= s,
        ;
    }
    if s < r {
        assert((s + 1) * (s + 1) <= r * r) by (nonlinear_arith)
            requires
                0 <= s + 1 <= r,
        ;
    }
}

/// Square of an integer, named so that quantifiers over squares have a trigger.
pub open spec fn square(r: int) -> int {
    r * r
}

/// The proportional amount of the other token: `amount_a * reserve_b / reserve_a`.
pub open spec fn quote_value(amount_a: int, reserve_a: int, reserve_b: int) -> int {
    amount_a * reserve_b / reserve_a
}

/// Returns the smaller of two `u128` values.
pub fn min_u128(a: u128, b: u128) -> (r: u128)
    ensures
        r == (if a <= b { a } else { b }),
{
    if a <= b {
        a
    } else {
        b
    }
}

/// Converts `u128` to `u64`, returning overflow if the value does not fit.
pub fn u128_to_u64(x: u128) -> (r: Result<u64, AmmError>)
    ensures
        x <= u64::MAX ==> r == Ok::<u64, AmmError>(x as u64),
        x > u64::MAX ==> r == Err::<u64, AmmError>(AmmError::ArithmeticOverflow),
{
    if x > u64::MAX as u128 {
        return Err(AmmError::ArithmeticOverflow);
    }
    Ok(x as u64)
}

/// One Newton step never drops below any `s` whose square fits under `y`.
proof fn lemma_newton_step_lower(y: int, z: int, s: int)
    requires
        z >= 1,
        s >= 0,
        s * s <= y,
    ensures
        (y / z + z) / 2 >= s,
{
    let q = y / z;
    let rem = y % z;
    lemma_fundamental_div_mod(y, z);
    lemma_mod_bound(y, z);
    assert((q + 1) * z > y) by (nonlinear_arith)
        requires
            y == z * q + rem,
            0 <= rem < z,
    ;
    if q + z < 2 * s {
        assert((q + 1) * z <= (2 * s - z) * z) by (nonlinear_arith)
            requires
                q + 1 <= 2 * s - z,
                z >= 1,
        ;
        assert((2 * s - z) * z <= s * s) by (nonlinear_arith);
    }
}

/// Above the root, one Newton step strictly decreases.
proof fn lemma_newton_step_decreases(y: int, z: int)
    requires
        z >= 1,
        y >= 0,
        z * z > y,
    ensures
        (y / z + z) / 2 < z,
{
    let q = y / z;
    let rem = y % z;
    lemma_fundamental_div_mod(y, z);
    lemma_mod_bound(y, z);
    assert(q < z) by (nonlinear_arith)
        requires
            y == z * q + rem,
            0 <= rem < z,
            z * z > y,
            z >= 1,
    ;
}

/// For `x >= 2`, `y / x + x` stays within `u128` when `x <= y / 2 + 1`.
proof fn lemma_newton_sum_fits(y: int, x: int)
    requires
        0 <= y <= u128::MAX,
        2 <= x <= y / 2 + 1,
    ensures
        y / x + x <= u128::MAX,
        (y / x + x) / 2 <= y / 2 + 1,
{
    lemma_div_is_ordered_by_denominator(y, 2, x);
}

/// A number whose square fits under `y > 3` is at most `y / 2 + 1`.
proof fn lemma_root_below_half(y: int, r: int)
    requires
        y > 3,
        r >= 0,
        r * r <= y,
    ensures
        r <= y / 2 + 1,
        r <= y,
{
    if r > y / 2 + 1 {
        assert(r * r >= 2 * r) by (nonlinear_arith)
            requires
                r >= 2,
        ;
    }
}

/// Computes the integer square root using the Babylonian method.
pub fn sqrt_u128(y: u128) -> (r: u128)
    ensures
        is_floor_sqrt(y as int, r as int),
        r == isqrt(y as int),
{
    let r = if y > 3 {
        let mut z = y;
        let mut x = y / 2 + 1;
        assert(square(2) <= y);
        assert forall|r: int| 0 <= r && #[trigger] square(r) <= y implies r <= x && r <= z by {
            lemma_root_below_half(y as int, r);
        }
        while x < z
            invariant
                3 < y,
                2 <= x <= y / 2 + 1,
                x <= y,
                forall|r: int| 0 <= r && #[trigger] square(r) <= y ==> r <= x && r <= z,
                (z as int) * (z as int) > y ==> x < z,
            decreases z,
        {
            z = x;
            proof {
                lemma_newton_sum_fits(y as int, x as int);
            }
            x = (y / x + x) / 2;
            proof {
                assert forall|r: int| 0 <= r && #[trigger] square(r) <= y implies r <= x by {
                    lemma_newton_step_lower(y as int, z as int, r);
                }
                if (z as int) * (z as int) > y {
                    lemma_newton_step_decreases(y as int, z as int);
                }
                assert(square(2) <= y);
            }
        }
        proof {
            let zi = z as int;
            if y >= square(zi + 1) {
                assert(zi + 1 <= zi);
            }
            assert(is_floor_sqrt(y as int, zi));
        }
        z
    } else if y != 0 {
        1
    } else {
        0
    };
    proof {
        lemma_isqrt(y as int);
        assert(is_floor_sqrt(y as int, r as int));
    }
    r
}

/// Quotes the proportional amount of token B for a given amount of token A.
///
/// Returns `InvalidArgument` when any input is zero and arithmetic overflow when
/// intermediate multiplication or division fails.
pub fn quote(amount_a: u128, reserve_a: u128, reserve_b: u128) -> (r: Result<u128, AmmError>)
    ensures
        (amount_a == 0 || reserve_a == 0 || reserve_b == 0) ==> r == Err::<u128, AmmError>(
            AmmError::InvalidArgument,
        ),
        (amount_a != 0 && reserve_a != 0 && reserve_b != 0 && amount_a * reserve_b > u128::MAX)
            ==> r == Err::<u128, AmmError>(AmmError::ArithmeticOverflow),
        (amount_a != 0 && reserve_a != 0 && reserve_b != 0 && amount_a * reserve_b <= u128::MAX)
            ==> r == Ok::<u128, AmmError>(
            quote_value(amount_a as int, reserve_a as int, reserve_b as int) as u128,
        ),
{
    if amount_a == 0 || reserve_a == 0 || reserve_b == 0 {
        return Err(AmmError::InvalidArgument);
    }
    match amount_a.checked_mul(reserve_b) {
        None => Err(AmmError::ArithmeticOverflow),
        Some(product) => Ok(product / reserve_a),
    }
}

} // verus!
