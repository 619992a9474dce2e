//! Program-wide constants.

use vstd::prelude::*;

use crate::key::Key;

verus! {

/// Fixed swap fee charged by the pool, expressed in basis points.
pub const SWAP_FEE_BPS: u16 = 3;

/// Decimal precision used for LP tokens minted by this program.
pub const LP_DECIMALS: u8 = 6;

/// Permanently locked LP supply used to prevent edge cases.
pub const MINIMUM_LIQUIDITY: u64 = 1000;

/// Denominator of the basis-point fee.
pub const FEE_DENOMINATOR: u128 = 10000;

/// Seed used to derive the singleton factory PDA (`b"factory"`).
pub open spec fn factory_seed_bytes() -> Seq<u8> {
    seq![102u8, 97u8, 99u8, 116u8, 111u8, 114u8, 121u8]
}

/// Prefix used to derive pair PDAs from `(factory, mint0, mint1)` (`b"pair"`).
pub open spec fn pair_seed_prefix_bytes() -> Seq<u8> {
    seq![112u8, 97u8, 105u8, 114u8]
}

/// Prefix used to derive the LP mint PDA for a pair (`b"lp_mint"`).
pub open spec fn lp_mint_seed_prefix_bytes() -> Seq<u8> {
    seq![108u8, 112u8, 95u8, 109u8, 105u8, 110u8, 116u8]
}

/// The bytes of the program admin, `BNToqmqXLNvUrEGGS7io3MQodB9dT56M4Q1Q8xcPYyk7`.
pub open spec fn program_admin_bytes() -> Seq<u8> {
    seq![
        154u8, 20u8, 96u8, 177u8, 91u8, 248u8, 160u8, 240u8, 15u8, 207u8, 197u8, 37u8, 232u8,
        168u8, 30u8, 72u8, 55u8, 65u8, 172u8, 205u8, 13u8, 70u8, 247u8, 239u8, 247u8, 125u8,
        149u8, 40u8, 84u8, 66u8, 84u8, 252u8,
    ]
}

/// Seed used to derive the singleton factory PDA.
pub fn factory_seed() -> (v: Vec<u8>)
    ensures
        v@ == factory_seed_bytes(),
{
    let v = vec![102u8, 97u8, 99u8, 116u8, 111u8, 114u8, 121u8];
    assert(v@ =~= factory_seed_bytes());
    v
}

/// Prefix used to derive pair PDAs.
pub fn pair_seed_prefix() -> (v: Vec<u8>)
    ensures
        v@ == pair_seed_prefix_bytes(),
{
    let v = vec![112u8, 97u8, 105u8, 114u8];
    assert(v@ =~= pair_seed_prefix_bytes());
    v
}

/// Prefix used to derive the LP mint PDA for a pair.
pub fn lp_mint_seed_prefix() -> (v: Vec<u8>)
    ensures
        v@ == lp_mint_seed_prefix_bytes(),
{
    let v = vec![108u8, 112u8, 95u8, 109u8, 105u8, 110u8, 116u8];
    assert(v@ =~= lp_mint_seed_prefix_bytes());
    v
}

/// Program admin allowed to initialize the factory, pair and receive protocol fees.
pub fn program_admin_authority() -> (k: Key)
    ensures
        k@ == program_admin_bytes(),
{
    let k = Key {
        bytes: [
            154u8, 20u8, 96u8, 177u8, 91u8, 248u8, 160u8, 240u8, 15u8, 207u8, 197u8, 37u8, 232u8,
            168u8, 30u8, 72u8, 55u8, 65u8, 172u8, 205u8, 13u8, 70u8, 247u8, 239u8, 247u8, 125u8,
            149u8, 40u8, 84u8, 66u8, 84u8, 252u8,
        ],
    };
    assert(k@ =~= program_admin_bytes());
    k
}

} // verus!
