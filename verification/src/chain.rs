//! Calls into the Solana address, SDK id and SPL token interface crates:
//! program address derivation, the token program's account layouts, and the
//! ids of the programs and sysvars the pool works with. Verus does not read
//! these crates; what is assumed of each call is stated on its wrapper.

use vstd::prelude::*;
use vstd::bytes::spec_u64_from_le_bytes;

use solana_address::Address;
use solana_program_pack::Pack;
use spl_token_interface::state::{Account as SplTokenAccount, Mint as SplMint};

use crate::key::Key;

verus! {

/// What `solana_address::Address::try_find_program_address` returns for these
/// seeds under this program id: the derived address and its bump seed, or
/// nothing when no bump seed gives an address off the curve or the seeds are
/// too many or too long.
pub uninterp spec fn found_program_address(seeds: Seq<Seq<u8>>, program_id: Seq<u8>) -> Option<
    (Seq<u8>, u8),
>;

/// Derives a program address with `Address::try_find_program_address`.
///
/// Assumed: the result is the address and bump that the crate finds for
/// exactly these seeds and this program id (named `found_program_address`).
#[verifier::external_body]
pub(crate) fn try_find_program_address(seeds: &Vec<Vec<u8>>, program_id: &Key) -> (r: Option<
    (Key, u8),
>)
    ensures
        r is Some <==> found_program_address(seeds.deep_view(), program_id@) is Some,
        r matches Some((k, bump)) ==> found_program_address(seeds.deep_view(), program_id@) == Some(
            (k@, bump),
        ),
{
    let slices: Vec<&[u8]> = seeds.iter().map(|seed| seed.as_slice()).collect();
    match Address::try_find_program_address(&slices, &Address::new_from_array(program_id.bytes)) {
        Some((address, bump)) => Some((Key { bytes: address.to_bytes() }, bump)),
        None => None,
    }
}

/// Whether the four bytes at `at` are an option tag as the token interface
/// writes them: `[0, 0, 0, 0]` for none, `[1, 0, 0, 0]` for some.
pub open spec fn option_tag_ok(data: Seq<u8>, at: int) -> bool {
    &&& data[at] == 0 || data[at] == 1
    &&& data[at + 1] == 0 && data[at + 2] == 0 && data[at + 3] == 0
}

/// What `spl_token_interface::state::Account::unpack` reads from account data:
/// the token account's mint, owner and amount, when the data is a token
/// account's 165 bytes with valid option tags (delegate at 72, native amount
/// at 109, close authority at 129) and an initialized or frozen state byte
/// at 108; nothing otherwise. Mint, owner and the little-endian amount lie
/// at 0, 32 and 64.
#[verifier::opaque]
pub open spec fn unpacked_token_account(data: Seq<u8>) -> Option<(Seq<u8>, Seq<u8>, u64)> {
    if data.len() == 165 && option_tag_ok(data, 72) && (data[108] == 1 || data[108] == 2)
        && option_tag_ok(data, 109) && option_tag_ok(data, 129) {
        Some(
            (
                data.subrange(0, 32),
                data.subrange(32, 64),
                spec_u64_from_le_bytes(data.subrange(64, 72)),
            ),
        )
    } else {
        None
    }
}

/// What `spl_token_interface::state::Mint::unpack` reads from account data:
/// the mint's supply, little-endian at 36, when the data is a mint's 82 bytes
/// with valid option tags (mint authority at 0, freeze authority at 46) and
/// the initialized byte at 45 set; nothing otherwise.
#[verifier::opaque]
pub open spec fn unpacked_mint_supply(data: Seq<u8>) -> Option<u64> {
    if data.len() == 82 && option_tag_ok(data, 0) && data[45] == 1 && option_tag_ok(data, 46) {
        Some(spec_u64_from_le_bytes(data.subrange(36, 44)))
    } else {
        None
    }
}

/// The fields of an SPL token account that the pool reads.
#[derive(Clone, Copy, Debug)]
pub struct TokenAccountState {
    pub mint: Key,
    pub owner: Key,
    pub amount: u64,
}

/// Reads a token account with `Account::unpack` (the `Pack` trait).
///
/// Assumed: the result is what the token interface reads from these bytes, as
/// `unpacked_token_account` states it; the call does not panic.
#[verifier::external_body]
pub(crate) fn unpack_token_account(data: &[u8]) -> (r: Option<TokenAccountState>)
    ensures
        match unpacked_token_account(data@) {
            None => r is None,
            Some((mint, owner, amount)) => r matches Some(a) && a.mint@ == mint && a.owner@ == owner
                && a.amount == amount,
        },
{
    match SplTokenAccount::unpack(data) {
        Ok(account) => Some(
            TokenAccountState {
                mint: Key { bytes: account.mint.to_bytes() },
                owner: Key { bytes: account.owner.to_bytes() },
                amount: account.amount,
            },
        ),
        Err(_) => None,
    }
}

/// Reads a mint's supply with `Mint::unpack` (the `Pack` trait).
///
/// Assumed: the result is what the token interface reads from these bytes, as
/// `unpacked_mint_supply` states it; the call does not panic.
#[verifier::external_body]
pub(crate) fn unpack_mint_supply(data: &[u8]) -> (r: Option<u64>)
    ensures
        r == unpacked_mint_supply(data@),
{
    match SplMint::unpack(data) {
        Ok(mint) => Some(mint.supply),
        Err(_) => None,
    }
}

// ---------------------------------------------------------------------------
// Well-known addresses
// ---------------------------------------------------------------------------

/// The system program's address, `11111111111111111111111111111111`.
pub open spec fn system_program_bytes() -> Seq<u8> {
    Seq::new(32, |i: int| 0u8)
}

/// The SPL token program's address, `TokenkegQfeZyiNwAJbNbGKPFXCWuBvf9Ss623VQ5DA`.
pub open spec fn token_program_bytes() -> Seq<u8> {
    seq![
        6u8, 221u8, 246u8, 225u8, 215u8, 101u8, 161u8, 147u8, 217u8, 203u8, 225u8, 70u8, 206u8,
        235u8, 121u8, 172u8, 28u8, 180u8, 133u8, 237u8, 95u8, 91u8, 55u8, 145u8, 58u8, 140u8,
        245u8, 133u8, 126u8, 255u8, 0u8, 169u8,
    ]
}

/// The associated token account program's address,
/// `ATokenGPvbdGVxr1b2hvZbsiqW5xWH25efTNsLJA8knL`.
pub open spec fn ata_program_bytes() -> Seq<u8> {
    seq![
        140u8, 151u8, 37u8, 143u8, 78u8, 36u8, 137u8, 241u8, 187u8, 61u8, 16u8, 41u8, 20u8, 142u8,
        13u8, 131u8, 11u8, 90u8, 19u8, 153u8, 218u8, 255u8, 16u8, 132u8, 4u8, 142u8, 123u8, 216u8,
        219u8, 233u8, 248u8, 89u8,
    ]
}

/// The rent sysvar's address, `SysvarRent111111111111111111111111111111111`.
pub open spec fn rent_sysvar_bytes() -> Seq<u8> {
    seq![
        6u8, 167u8, 213u8, 23u8, 25u8, 44u8, 92u8, 81u8, 33u8, 140u8, 201u8, 76u8, 61u8, 74u8,
        241u8, 127u8, 88u8, 218u8, 238u8, 8u8, 155u8, 161u8, 253u8, 68u8, 227u8, 219u8, 217u8,
        138u8, 0u8, 0u8, 0u8, 0u8,
    ]
}

/// The clock sysvar's address, `SysvarC1ock11111111111111111111111111111111`.
pub open spec fn clock_sysvar_bytes() -> Seq<u8> {
    seq![
        6u8, 167u8, 213u8, 23u8, 24u8, 199u8, 116u8, 201u8, 40u8, 86u8, 99u8, 152u8, 105u8, 29u8,
        94u8, 182u8, 139u8, 94u8, 184u8, 163u8, 155u8, 75u8, 109u8, 92u8, 115u8, 85u8, 91u8, 33u8,
        0u8, 0u8, 0u8, 0u8,
    ]
}

/// The byte size of an SPL mint account.
pub open spec fn mint_account_size() -> u64 {
    82
}

/// The system program's id, `solana_sdk_ids::system_program::id()`.
///
/// Assumed: the crate declares it as `11111111111111111111111111111111`, the
/// bytes of `system_program_bytes`.
#[verifier::external_body]
pub(crate) fn system_program_id() -> (k: Key)
    ensures
        k@ == system_program_bytes(),
{
    Key { bytes: solana_sdk_ids::system_program::id().to_bytes() }
}

/// The token program's id, `spl_token_interface::id()`.
///
/// Assumed: the crate declares it as
/// `TokenkegQfeZyiNwAJbNbGKPFXCWuBvf9Ss623VQ5DA`, the bytes of
/// `token_program_bytes`.
#[verifier::external_body]
pub(crate) fn token_program_id() -> (k: Key)
    ensures
        k@ == token_program_bytes(),
{
    Key { bytes: spl_token_interface::id().to_bytes() }
}

/// The associated token account program's id,
/// `spl_associated_token_account_interface::program::id()`.
///
/// Assumed: the crate declares it as
/// `ATokenGPvbdGVxr1b2hvZbsiqW5xWH25efTNsLJA8knL`, the bytes of
/// `ata_program_bytes`.
#[verifier::external_body]
pub(crate) fn ata_program_id() -> (k: Key)
    ensures
        k@ == ata_program_bytes(),
{
    Key { bytes: spl_associated_token_account_interface::program::id().to_bytes() }
}

/// The rent sysvar's id, `solana_sdk_ids::sysvar::rent::id()`.
///
/// Assumed: the crate declares it as
/// `SysvarRent111111111111111111111111111111111`, the bytes of
/// `rent_sysvar_bytes`.
#[verifier::external_body]
pub(crate) fn rent_sysvar_id() -> (k: Key)
    ensures
        k@ == rent_sysvar_bytes(),
{
    Key { bytes: solana_sdk_ids::sysvar::rent::id().to_bytes() }
}

/// The clock sysvar's id, `solana_sdk_ids::sysvar::clock::id()`.
///
/// Assumed: the crate declares it as
/// `SysvarC1ock11111111111111111111111111111111`, the bytes of
/// `clock_sysvar_bytes`.
#[verifier::external_body]
pub(crate) fn clock_sysvar_id() -> (k: Key)
    ensures
        k@ == clock_sysvar_bytes(),
{
    Key { bytes: solana_sdk_ids::sysvar::clock::id().to_bytes() }
}

/// The size of an SPL mint account, `spl_token_interface::state::Mint::LEN`.
///
/// Assumed: the crate's mint layout is 82 bytes (`Mint::LEN`).
#[verifier::external_body]
pub(crate) fn mint_account_len() -> (n: u64)
    ensures
        n == mint_account_size(),
{
    SplMint::LEN as u64
}

} // verus!
