//! What every instruction shares: the accounts as the runtime shows them, the
//! cross-program invocations that the program asks for, program address
//! derivation, token account checks and the protocol fee.

use vstd::prelude::*;

use crate::amm::{fee_from_roots, fee_from_roots_spec, fee_roots, fee_roots_spec};
use crate::chain::{
    ata_program_bytes, ata_program_id, clock_sysvar_bytes, found_program_address, rent_sysvar_bytes,
    system_program_bytes, token_program_bytes, token_program_id, try_find_program_address,
    unpack_mint_supply, unpack_token_account, unpacked_mint_supply, unpacked_token_account,
};
use crate::constants::{
    factory_seed, factory_seed_bytes, lp_mint_seed_prefix, lp_mint_seed_prefix_bytes,
    pair_seed_prefix, pair_seed_prefix_bytes, program_admin_authority, program_admin_bytes,
};
use crate::error::AmmError;
use crate::key::Key;
use crate::math::u128_to_u64;
use crate::state::{pair_state_bytes, pair_state_from_bytes, PairState, PAIR_STATE_LEN};

pub use crate::amm::{swap_fee_bps, update_reserves_and_twap};

verus! {

/// An account as the runtime hands it to the program.
#[derive(Debug)]
pub struct AccountView {
    pub key: Key,
    pub owner: Key,
    pub is_signer: bool,
    pub lamports: u64,
    pub data: Vec<u8>,
    /// The Unix timestamp, when this account is the clock sysvar and its data
    /// reads as a clock.
    pub clock_timestamp: Option<i64>,
}

/// Rent-exempt balances, in lamports, of the accounts the program creates.
#[derive(Clone, Copy, Debug)]
pub struct RentQuote {
    pub factory: u64,
    pub pair: u64,
    pub mint: u64,
}

/// The environment of an instruction: this program's id and the rent quote
/// (none when the rent sysvar could not be read).
#[derive(Clone, Copy, Debug)]
pub struct Env {
    pub program_id: Key,
    pub rent: Option<RentQuote>,
}

/// A cross-program invocation that the program asks the runtime to make.
/// Accounts are given by their position in the instruction's account list;
/// `signer_seeds` are the seeds by which the program signs for a PDA (none
/// when every signer signed the transaction).
#[derive(Debug)]
pub enum Cpi {
    /// Create the associated token account `ata` of `owner` for `mint`, paid
    /// by `payer`, unless it already exists.
    CreateAta {
        payer: usize,
        ata: usize,
        owner: usize,
        mint: usize,
        system_program: usize,
        token_program: usize,
        ata_program: usize,
        rent_sysvar: usize,
    },
    /// Move `amount` tokens from `source` to `destination`.
    Transfer {
        token_program: usize,
        source: usize,
        destination: usize,
        authority: usize,
        amount: u64,
        signer_seeds: Vec<Vec<u8>>,
    },
    /// Mint `amount` tokens of `mint` into `destination`.
    MintTo {
        token_program: usize,
        mint: usize,
        destination: usize,
        authority: usize,
        amount: u64,
        signer_seeds: Vec<Vec<u8>>,
    },
    /// Burn `amount` tokens of `mint` held by `source`.
    Burn { token_program: usize, source: usize, mint: usize, authority: usize, amount: u64 },
    /// Initialize `mint` with `mint_authority` and no freeze authority.
    InitializeMint {
        token_program: usize,
        mint: usize,
        mint_authority: usize,
        rent_sysvar: usize,
        decimals: u8,
    },
    /// Create `new_account` with `lamports` and `space` bytes, owned by `owner_program`.
    CreateAccount {
        payer: usize,
        new_account: usize,
        system_program: usize,
        lamports: u64,
        space: u64,
        owner_program: Key,
        signer_seeds: Vec<Vec<u8>>,
    },
    /// Move `lamports` from `payer` to `recipient`.
    SystemTransfer { payer: usize, recipient: usize, system_program: usize, lamports: u64 },
    /// Give `account` `space` bytes of data.
    Allocate { account: usize, system_program: usize, space: u64, signer_seeds: Vec<Vec<u8>> },
    /// Make `owner_program` the owner of `account`.
    Assign { account: usize, system_program: usize, owner_program: Key, signer_seeds: Vec<Vec<u8>> },
}

/// New data for an account, written when the instruction succeeds.
#[derive(Debug)]
pub struct AccountWrite {
    pub account: usize,
    pub data: Vec<u8>,
}

/// What an instruction does next: invoke other programs and then continue at
/// `next` with the accounts as they are after the invocations, or finish by
/// writing account data.
#[derive(Debug)]
pub enum Step<S> {
    Invoke { cpis: Vec<Cpi>, next: S },
    Finish { writes: Vec<AccountWrite> },
}

/// The bytes of a byte vector, seen element by element, are its view.
pub proof fn lemma_bytes_deep_view(v: Vec<u8>)
    ensures
        v.deep_view() == v@,
{
    assert(v.deep_view() =~= v@);
}

// ---------------------------------------------------------------------------
// Program addresses
// ---------------------------------------------------------------------------

/// An optional address and bump seen as plain values.
pub open spec fn key_bump_view(r: Option<(Key, u8)>) -> Option<(Seq<u8>, u8)> {
    match r {
        Some((k, b)) => Some((k@, b)),
        None => None,
    }
}

/// The seeds of the factory PDA.
pub open spec fn factory_seeds_spec() -> Seq<Seq<u8>> {
    seq![factory_seed_bytes()]
}

/// The seeds of a pair PDA.
pub open spec fn pair_seeds_spec(factory: Seq<u8>, mint0: Seq<u8>, mint1: Seq<u8>) -> Seq<Seq<u8>> {
    seq![pair_seed_prefix_bytes(), factory, mint0, mint1]
}

/// The seeds of a pair's LP mint PDA.
pub open spec fn lp_mint_seeds_spec(pair: Seq<u8>) -> Seq<Seq<u8>> {
    seq![lp_mint_seed_prefix_bytes(), pair]
}

/// The seeds of an associated token account.
pub open spec fn ata_seeds_spec(owner: Seq<u8>, token_program: Seq<u8>, mint: Seq<u8>) -> Seq<Seq<u8>> {
    seq![owner, token_program, mint]
}

/// The associated token address of `(owner, mint)`, if one is found.
pub open spec fn ata_address_spec(owner: Seq<u8>, mint: Seq<u8>) -> Option<Seq<u8>> {
    match found_program_address(ata_seeds_spec(owner, token_program_bytes(), mint), ata_program_bytes()) {
        Some((address, _bump)) => Some(address),
        None => None,
    }
}

/// The seeds by which the pair PDA signs, bump included.
pub open spec fn pair_signer_seeds_spec(s: PairState, bump: u8) -> Seq<Seq<u8>> {
    pair_seeds_spec(s.factory@, s.token0_mint@, s.token1_mint@).push(seq![bump])
}

/// Derives the singleton factory PDA.
pub fn derive_factory_pda(program_id: &Key) -> (r: Option<(Key, u8)>)
    ensures
        key_bump_view(r) == found_program_address(factory_seeds_spec(), program_id@),
{
    let mut seeds: Vec<Vec<u8>> = Vec::new();
    let seed = factory_seed();
    proof {
        lemma_bytes_deep_view(seed);
    }
    seeds.push(seed);
    assert(seeds.deep_view() =~= factory_seeds_spec());
    try_find_program_address(&seeds, program_id)
}

/// Derives the pair PDA from the factory and canonically sorted mint pair.
pub fn derive_pair_pda(program_id: &Key, factory: &Key, mint0: &Key, mint1: &Key) -> (r: Option<
    (Key, u8),
>)
    ensures
        key_bump_view(r) == found_program_address(
            pair_seeds_spec(factory@, mint0@, mint1@),
            program_id@,
        ),
{
    let seeds = pair_seeds(factory, mint0, mint1);
    try_find_program_address(&seeds, program_id)
}

/// The pair PDA seeds, without the bump.
fn pair_seeds(factory: &Key, mint0: &Key, mint1: &Key) -> (seeds: Vec<Vec<u8>>)
    ensures
        seeds.deep_view() == pair_seeds_spec(factory@, mint0@, mint1@),
{
    let mut seeds: Vec<Vec<u8>> = Vec::new();
    let a = pair_seed_prefix();
    let b = factory.to_vec();
    let c = mint0.to_vec();
    let d = mint1.to_vec();
    proof {
        lemma_bytes_deep_view(a);
        lemma_bytes_deep_view(b);
        lemma_bytes_deep_view(c);
        lemma_bytes_deep_view(d);
    }
    seeds.push(a);
    seeds.push(b);
    seeds.push(c);
    seeds.push(d);
    assert(seeds.deep_view() =~= pair_seeds_spec(factory@, mint0@, mint1@));
    seeds
}

/// The seeds by which the pair PDA signs its invocations.
pub fn pair_signer_seeds(state: &PairState, bump: u8) -> (seeds: Vec<Vec<u8>>)
    ensures
        seeds.deep_view() == pair_signer_seeds_spec(*state, bump),
{
    let mut seeds = pair_seeds(&state.factory, &state.token0_mint, &state.token1_mint);
    let mut b: Vec<u8> = Vec::new();
    b.push(bump);
    proof {
        lemma_bytes_deep_view(b);
    }
    assert(b@ =~= seq![bump]);
    seeds.push(b);
    assert(seeds.deep_view() =~= pair_signer_seeds_spec(*state, bump));
    seeds
}

/// Derives the LP mint PDA for a given pair PDA.
pub fn derive_lp_mint_pda(program_id: &Key, pair: &Key) -> (r: Option<(Key, u8)>)
    ensures
        key_bump_view(r) == found_program_address(lp_mint_seeds_spec(pair@), program_id@),
{
    let mut seeds: Vec<Vec<u8>> = Vec::new();
    let a = lp_mint_seed_prefix();
    let b = pair.to_vec();
    proof {
        lemma_bytes_deep_view(a);
        lemma_bytes_deep_view(b);
    }
    seeds.push(a);
    seeds.push(b);
    assert(seeds.deep_view() =~= lp_mint_seeds_spec(pair@));
    try_find_program_address(&seeds, program_id)
}

/// Returns the canonical associated token address for `(owner, mint)`: the
/// address that the associated token program derives from the seeds
/// `[owner, token program, mint]`.
pub fn get_ata(owner: &Key, mint: &Key) -> (r: Option<Key>)
    ensures
        match r {
            Some(k) => ata_address_spec(owner@, mint@) == Some(k@),
            None => ata_address_spec(owner@, mint@) is None,
        },
{
    let mut seeds: Vec<Vec<u8>> = Vec::new();
    let a = owner.to_vec();
    let b = token_program_id().to_vec();
    let c = mint.to_vec();
    proof {
        lemma_bytes_deep_view(a);
        lemma_bytes_deep_view(b);
        lemma_bytes_deep_view(c);
    }
    seeds.push(a);
    seeds.push(b);
    seeds.push(c);
    assert(seeds.deep_view() =~= ata_seeds_spec(owner@, token_program_bytes(), mint@));
    match try_find_program_address(&seeds, &ata_program_id()) {
        Some((address, _bump)) => Some(address),
        None => None,
    }
}

/// Whether `key` is the associated token address of `(owner, mint)`; an
/// address that cannot be derived is refused as invalid seeds.
pub open spec fn ata_check_spec(key: Seq<u8>, owner: Seq<u8>, mint: Seq<u8>) -> Result<
    (),
    AmmError,
> {
    match ata_address_spec(owner, mint) {
        None => Err(AmmError::InvalidSeeds),
        Some(expected) => if key != expected {
            Err(AmmError::InvalidArgument)
        } else {
            Ok(())
        },
    }
}

/// Checks that `key` is the associated token address of `(owner, mint)`.
pub fn check_ata(key: &Key, owner: &Key, mint: &Key) -> (r: Result<(), AmmError>)
    ensures
        r == ata_check_spec(key@, owner@, mint@),
{
    match get_ata(owner, mint) {
        None => Err(AmmError::InvalidSeeds),
        Some(expected) => if !key.equals(&expected) {
            Err(AmmError::InvalidArgument)
        } else {
            Ok(())
        },
    }
}

// ---------------------------------------------------------------------------
// Token accounts
// ---------------------------------------------------------------------------

/// Whether `data` is a token account of `expected_mint` held by `expected_authority`.
pub open spec fn token_account_check_spec(data: Seq<u8>, expected_authority: Seq<u8>, expected_mint: Seq<u8>) -> Result<
    (),
    AmmError,
> {
    match unpacked_token_account(data) {
        None => Err(AmmError::InvalidAccountData),
        Some((mint, owner, _amount)) => if owner != expected_authority {
            Err(AmmError::IllegalOwner)
        } else if mint != expected_mint {
            Err(AmmError::InvalidAccountData)
        } else {
            Ok(())
        },
    }
}

/// Verifies that a token account matches the expected authority and mint.
pub fn assert_token_account(data: &[u8], expected_authority: &Key, expected_mint: &Key) -> (r:
    Result<(), AmmError>)
    ensures
        r == token_account_check_spec(data@, expected_authority@, expected_mint@),
{
    match unpack_token_account(data) {
        None => Err(AmmError::InvalidAccountData),
        Some(acc) => if !acc.owner.equals(expected_authority) {
            Err(AmmError::IllegalOwner)
        } else if !acc.mint.equals(expected_mint) {
            Err(AmmError::InvalidAccountData)
        } else {
            Ok(())
        },
    }
}

/// The amount held by a token account, or invalid account data.
pub open spec fn token_balance_spec(data: Seq<u8>) -> Result<u64, AmmError> {
    match unpacked_token_account(data) {
        None => Err(AmmError::InvalidAccountData),
        Some((_mint, _owner, amount)) => Ok(amount),
    }
}

/// Reads the amount held by a token account.
pub fn token_balance(data: &[u8]) -> (r: Result<u64, AmmError>)
    ensures
        r == token_balance_spec(data@),
{
    match unpack_token_account(data) {
        None => Err(AmmError::InvalidAccountData),
        Some(acc) => Ok(acc.amount),
    }
}

/// The supply of a mint, or invalid account data.
pub open spec fn mint_supply_spec(data: Seq<u8>) -> Result<u64, AmmError> {
    match unpacked_mint_supply(data) {
        None => Err(AmmError::InvalidAccountData),
        Some(supply) => Ok(supply),
    }
}

/// Reads the supply of a mint.
pub fn mint_supply(data: &[u8]) -> (r: Result<u64, AmmError>)
    ensures
        r == mint_supply_spec(data@),
{
    match unpack_mint_supply(data) {
        None => Err(AmmError::InvalidAccountData),
        Some(supply) => Ok(supply),
    }
}

// ---------------------------------------------------------------------------
// Invocations
// ---------------------------------------------------------------------------

/// Asks to create an ATA if it does not already exist.
pub fn create_ata_if_needed(
    payer: usize,
    ata: usize,
    owner: usize,
    mint: usize,
    programs: &SplProgramAccounts,
) -> (c: Cpi)
    ensures
        c == (Cpi::CreateAta {
            payer,
            ata,
            owner,
            mint,
            system_program: programs.system_program,
            token_program: programs.token_program,
            ata_program: programs.ata_program,
            rent_sysvar: programs.rent_sysvar,
        }),
{
    Cpi::CreateAta {
        payer,
        ata,
        owner,
        mint,
        system_program: programs.system_program,
        token_program: programs.token_program,
        ata_program: programs.ata_program,
        rent_sysvar: programs.rent_sysvar,
    }
}

/// Positions of the shared SPL and sysvar accounts in an instruction's accounts.
#[derive(Clone, Copy, Debug)]
pub struct SplProgramAccounts {
    pub token_program: usize,
    pub ata_program: usize,
    pub system_program: usize,
    pub rent_sysvar: usize,
}

/// Positions of the accounts used by the protocol-fee minting path.
#[derive(Clone, Copy, Debug)]
pub struct FeeMintAccounts {
    pub payer: usize,
    pub pair: usize,
    pub lp_mint: usize,
    pub fee_recipient: usize,
    pub fee_recipient_lp: usize,
}

/// `c` transfers `amount` from `source` to `destination` under `authority`, signed by `seeds`.
pub open spec fn is_transfer(
    c: Cpi,
    token_program: usize,
    source: usize,
    destination: usize,
    authority: usize,
    amount: u64,
    seeds: Seq<Seq<u8>>,
) -> bool {
    match c {
        Cpi::Transfer {
            token_program: t,
            source: s,
            destination: d,
            authority: a,
            amount: m,
            signer_seeds,
        } => t == token_program && s == source && d == destination && a == authority && m == amount
            && signer_seeds.deep_view() == seeds,
        _ => false,
    }
}

/// `c` mints `amount` of `mint` into `destination` under `authority`, signed by `seeds`.
pub open spec fn is_mint_to(
    c: Cpi,
    token_program: usize,
    mint: usize,
    destination: usize,
    authority: usize,
    amount: u64,
    seeds: Seq<Seq<u8>>,
) -> bool {
    match c {
        Cpi::MintTo {
            token_program: t,
            mint: n,
            destination: d,
            authority: a,
            amount: m,
            signer_seeds,
        } => t == token_program && n == mint && d == destination && a == authority && m == amount
            && signer_seeds.deep_view() == seeds,
        _ => false,
    }
}

/// Asks to transfer SPL tokens where the authority is an external signer.
pub fn transfer(token_program: usize, src: usize, dst: usize, auth: usize, amount: u64) -> (c: Cpi)
    ensures
        is_transfer(c, token_program, src, dst, auth, amount, Seq::empty()),
{
    let seeds: Vec<Vec<u8>> = Vec::new();
    assert(seeds.deep_view() =~= Seq::<Seq<u8>>::empty());
    Cpi::Transfer {
        token_program,
        source: src,
        destination: dst,
        authority: auth,
        amount,
        signer_seeds: seeds,
    }
}

/// Asks to transfer SPL tokens where the authority is a PDA signing via seeds.
pub fn transfer_signed(
    token_program: usize,
    src: usize,
    dst: usize,
    auth: usize,
    amount: u64,
    signer_seeds: Vec<Vec<u8>>,
) -> (c: Cpi)
    ensures
        is_transfer(c, token_program, src, dst, auth, amount, signer_seeds.deep_view()),
{
    Cpi::Transfer { token_program, source: src, destination: dst, authority: auth, amount, signer_seeds }
}

/// Asks to mint LP tokens from a mint controlled by a PDA authority.
pub fn mint_to_signed(
    token_program: usize,
    mint: usize,
    to: usize,
    auth: usize,
    amount: u64,
    signer_seeds: Vec<Vec<u8>>,
) -> (c: Cpi)
    ensures
        is_mint_to(c, token_program, mint, to, auth, amount, signer_seeds.deep_view()),
{
    Cpi::MintTo { token_program, mint, destination: to, authority: auth, amount, signer_seeds }
}

/// Asks to burn SPL tokens from a token account owned by an external signer.
pub fn burn(token_program: usize, from: usize, mint: usize, auth: usize, amount: u64) -> (c: Cpi)
    ensures
        c == (Cpi::Burn { token_program, source: from, mint, authority: auth, amount }),
{
    Cpi::Burn { token_program, source: from, mint, authority: auth, amount }
}

/// Asks to initialize an SPL mint.
pub fn init_mint(
    token_program: usize,
    mint: usize,
    mint_authority: usize,
    rent_sysvar: usize,
    decimals: u8,
) -> (c: Cpi)
    ensures
        c == (Cpi::InitializeMint { token_program, mint, mint_authority, rent_sysvar, decimals }),
{
    Cpi::InitializeMint { token_program, mint, mint_authority, rent_sysvar, decimals }
}

/// What `create_or_claim_pda_account` asks for.
pub open spec fn claim_plan_ok(
    cpis: Seq<Cpi>,
    payer: usize,
    new_account: usize,
    current_lamports: u64,
    owner_program: Key,
    lamports: u64,
    space: u64,
    system_program: usize,
    seeds: Seq<Seq<u8>>,
) -> bool {
    if current_lamports == 0 {
        &&& cpis.len() == 1
        &&& cpis[0] matches Cpi::CreateAccount {
            payer: p,
            new_account: n,
            system_program: sp,
            lamports: l,
            space: s,
            owner_program: o,
            signer_seeds,
        }
        &&& p == payer && n == new_account && sp == system_program && l == lamports && s == space
            && o@ == owner_program@ && signer_seeds.deep_view() == seeds
    } else {
        let missing = if lamports > current_lamports {
            lamports - current_lamports
        } else {
            0
        };
        let tail = if missing > 0 {
            cpis.drop_first()
        } else {
            cpis
        };
        &&& missing > 0 ==> cpis.len() > 0 && cpis[0] == (Cpi::SystemTransfer {
            payer,
            recipient: new_account,
            system_program,
            lamports: missing as u64,
        })
        &&& tail.len() == 2
        &&& tail[0] matches Cpi::Allocate { account: a, system_program: sp, space: s, signer_seeds }
        &&& a == new_account && sp == system_program && s == space && signer_seeds.deep_view()
            == seeds
        &&& tail[1] matches Cpi::Assign { account: a, system_program: sp, owner_program: o, signer_seeds }
        &&& a == new_account && sp == system_program && o@ == owner_program@
            && signer_seeds.deep_view() == seeds
    }
}

/// Plans the creation of a PDA-backed account, or the claim of one that was
/// prefunded with lamports as a system-owned account without data.
///
/// A prefunded account is topped up to `lamports`, then given `space` bytes and
/// handed to `owner_program`; any other funded account is refused as already
/// initialized.
pub fn create_or_claim_pda_account(
    payer: usize,
    new_account: usize,
    account: &AccountView,
    owner_program: &Key,
    lamports: u64,
    space: u64,
    system_program: usize,
    system_program_id: &Key,
    signer_seeds: &Vec<Vec<u8>>,
) -> (r: Result<Vec<Cpi>, AmmError>)
    ensures
        account.lamports != 0 && (account.owner@ != system_program_id@ || account.data@.len() != 0)
            ==> r == Err::<Vec<Cpi>, AmmError>(AmmError::AccountAlreadyInitialized),
        !(account.lamports != 0 && (account.owner@ != system_program_id@ || account.data@.len()
            != 0)) ==> (r matches Ok(cpis) && claim_plan_ok(
            cpis@,
            payer,
            new_account,
            account.lamports,
            *owner_program,
            lamports,
            space,
            system_program,
            signer_seeds.deep_view(),
        )),
{
    let mut cpis: Vec<Cpi> = Vec::new();
    if account.lamports == 0 {
        cpis.push(
            Cpi::CreateAccount {
                payer,
                new_account,
                system_program,
                lamports,
                space,
                owner_program: *owner_program,
                signer_seeds: signer_seeds.clone(),
            },
        );
        return Ok(cpis);
    }
    if !account.owner.equals(system_program_id) || account.data.len() != 0 {
        return Err(AmmError::AccountAlreadyInitialized);
    }
    let missing_lamports = lamports.saturating_sub(account.lamports);
    if missing_lamports > 0 {
        cpis.push(
            Cpi::SystemTransfer {
                payer,
                recipient: new_account,
                system_program,
                lamports: missing_lamports,
            },
        );
    }
    let ghost before = cpis@;
    cpis.push(
        Cpi::Allocate {
            account: new_account,
            system_program,
            space,
            signer_seeds: signer_seeds.clone(),
        },
    );
    cpis.push(
        Cpi::Assign {
            account: new_account,
            system_program,
            owner_program: *owner_program,
            signer_seeds: signer_seeds.clone(),
        },
    );
    proof {
        if missing_lamports > 0 {
            assert(cpis@.drop_first() =~= seq![cpis@[1], cpis@[2]]);
        }
    }
    Ok(cpis)
}

/// Asks to create a PDA-owned SPL mint account.
pub fn create_mint_account_signed(
    payer: usize,
    mint: usize,
    account: &AccountView,
    token_program_id: &Key,
    system_program: usize,
    system_program_id: &Key,
    lamports: u64,
    space: u64,
    signer_seeds: &Vec<Vec<u8>>,
) -> (r: Result<Vec<Cpi>, AmmError>)
    ensures
        account.lamports != 0 && (account.owner@ != system_program_id@ || account.data@.len() != 0)
            ==> r == Err::<Vec<Cpi>, AmmError>(AmmError::AccountAlreadyInitialized),
        !(account.lamports != 0 && (account.owner@ != system_program_id@ || account.data@.len()
            != 0)) ==> (r matches Ok(cpis) && claim_plan_ok(
            cpis@,
            payer,
            mint,
            account.lamports,
            *token_program_id,
            lamports,
            space,
            system_program,
            signer_seeds.deep_view(),
        )),
{
    create_or_claim_pda_account(
        payer,
        mint,
        account,
        token_program_id,
        lamports,
        space,
        system_program,
        system_program_id,
        signer_seeds,
    )
}

// ---------------------------------------------------------------------------
// Protocol fee
// ---------------------------------------------------------------------------

/// The protocol fee decision: the LP amount to mint to the admin (zero for
/// none), or why the instruction is refused.
pub open spec fn mint_fee_spec(s: PairState, fee_recipient: Seq<u8>, lp_mint_data: Seq<u8>) -> Result<
    u128,
    AmmError,
> {
    if fee_recipient != program_admin_bytes() {
        Err(AmmError::InvalidArgument)
    } else {
        match fee_roots_spec(s.k_last as int, s.reserve0 as int, s.reserve1 as int) {
            None => Ok(0),
            Some((root_k, root_k_last)) => match unpacked_mint_supply(lp_mint_data) {
                None => Err(AmmError::InvalidAccountData),
                Some(supply) => Ok(fee_from_roots_spec(supply as int, root_k, root_k_last) as u128),
            },
        }
    }
}

/// Decides how many LP tokens to mint to the factory admin for the growth of
/// the pool since `k_last`: one-sixth of the growth measured as the increase
/// in `sqrt(k)`. Zero means no fee is minted.
pub fn mint_fee_if_needed(pair_state: &PairState, fee_recipient: &Key, lp_mint_data: &[u8]) -> (r:
    Result<u128, AmmError>)
    ensures
        r == mint_fee_spec(*pair_state, fee_recipient@, lp_mint_data@),
{
    let admin = program_admin_authority();
    if !fee_recipient.equals(&admin) {
        return Err(AmmError::InvalidArgument);
    }
    match fee_roots(pair_state.k_last, pair_state.reserve0, pair_state.reserve1) {
        None => Ok(0),
        Some((root_k, root_k_last)) => {
            let supply = mint_supply(lp_mint_data)?;
            Ok(fee_from_roots(supply, root_k, root_k_last))
        },
    }
}

/// The checks made once the admin's LP account exists, before the fee is minted.
pub open spec fn fee_recipient_lp_spec(
    fee_recipient_lp: Seq<u8>,
    fee_recipient: Seq<u8>,
    lp_mint: Seq<u8>,
    fee_recipient_lp_data: Seq<u8>,
    liquidity: u128,
) -> Result<u64, AmmError> {
    match ata_check_spec(fee_recipient_lp, fee_recipient, lp_mint) {
        Err(e) => Err(e),
        Ok(_) => match token_account_check_spec(fee_recipient_lp_data, fee_recipient, lp_mint) {
            Err(e) => Err(e),
            Ok(_) => if liquidity > u64::MAX {
                Err(AmmError::ArithmeticOverflow)
            } else {
                Ok(liquidity as u64)
            },
        },
    }
}

/// Checks the admin's LP account and converts the fee to a token amount.
pub fn check_fee_recipient_lp(
    fee_recipient_lp: &AccountView,
    fee_recipient: &Key,
    lp_mint: &Key,
    liquidity: u128,
) -> (r: Result<u64, AmmError>)
    ensures
        r == fee_recipient_lp_spec(
            fee_recipient_lp.key@,
            fee_recipient@,
            lp_mint@,
            fee_recipient_lp.data@,
            liquidity,
        ),
{
    check_ata(&fee_recipient_lp.key, fee_recipient, lp_mint)?;
    assert_token_account(fee_recipient_lp.data.as_slice(), fee_recipient, lp_mint)?;
    u128_to_u64(liquidity)
}

/// Runs `rest` after a check that passed; otherwise fails with the check's error.
pub open spec fn after<T>(check: Result<(), AmmError>, rest: Result<T, AmmError>) -> Result<T, AmmError> {
    match check {
        Err(e) => Err(e),
        Ok(_) => rest,
    }
}

/// A check that passes when `cond` holds and fails with `e` otherwise.
pub open spec fn require(cond: bool, e: AmmError) -> Result<(), AmmError> {
    if cond {
        Ok(())
    } else {
        Err(e)
    }
}

// ---------------------------------------------------------------------------
// Pair accounts
// ---------------------------------------------------------------------------

/// The checks every pair instruction makes on the pair account: owned by this
/// program, holding an initialized pair state of this program's factory, at
/// the PDA of its mints. On success: the state and the pair PDA's bump seed.
pub open spec fn load_pair_spec(program_id: Seq<u8>, pair: AccountView) -> Result<(PairState, u8), AmmError> {
    if pair.owner@ != program_id {
        Err(AmmError::IllegalOwner)
    } else {
        match pair_state_from_bytes(pair.data@) {
            None => Err(AmmError::InvalidAccountData),
            Some(s) => if !s.is_initialized {
                Err(AmmError::UninitializedAccount)
            } else {
                match found_program_address(factory_seeds_spec(), program_id) {
                    None => Err(AmmError::InvalidSeeds),
                    Some((factory, _)) => if s.factory@ != factory {
                        Err(AmmError::InvalidAccountData)
                    } else {
                        match found_program_address(
                            pair_seeds_spec(factory, s.token0_mint@, s.token1_mint@),
                            program_id,
                        ) {
                            None => Err(AmmError::InvalidSeeds),
                            Some((expected_pair, bump)) => if pair.key@ != expected_pair {
                                Err(AmmError::InvalidSeeds)
                            } else {
                                Ok((s, bump))
                            },
                        }
                    },
                }
            },
        }
    }
}

/// Loads and checks a pair account.
pub fn load_pair(program_id: &Key, pair: &AccountView) -> (r: Result<(PairState, u8), AmmError>)
    ensures
        r == load_pair_spec(program_id@, *pair),
{
    if !pair.owner.equals(program_id) {
        return Err(AmmError::IllegalOwner);
    }
    let state = match PairState::try_from_slice(pair.data.as_slice()) {
        None => {
            return Err(AmmError::InvalidAccountData);
        },
        Some(s) => s,
    };
    if !state.is_initialized {
        return Err(AmmError::UninitializedAccount);
    }
    let (expected_factory, _) = match derive_factory_pda(program_id) {
        None => {
            return Err(AmmError::InvalidSeeds);
        },
        Some(found) => found,
    };
    if !state.factory.equals(&expected_factory) {
        return Err(AmmError::InvalidAccountData);
    }
    let (expected_pair, bump) = match derive_pair_pda(
        program_id,
        &expected_factory,
        &state.token0_mint,
        &state.token1_mint,
    ) {
        None => {
            return Err(AmmError::InvalidSeeds);
        },
        Some(found) => found,
    };
    if !pair.key.equals(&expected_pair) {
        return Err(AmmError::InvalidSeeds);
    }
    Ok((state, bump))
}

/// Whether the given vault accounts are the pair's recorded vaults.
pub open spec fn vault_links_spec(s: PairState, vault0: Seq<u8>, vault1: Seq<u8>) -> Result<(), AmmError> {
    if vault0 != s.vault0@ {
        Err(AmmError::InvalidArgument)
    } else if vault1 != s.vault1@ {
        Err(AmmError::InvalidArgument)
    } else {
        Ok(())
    }
}

/// Checks that the given vault accounts are the pair's recorded vaults.
pub fn check_vault_links(state: &PairState, vault0: &Key, vault1: &Key) -> (r: Result<(), AmmError>)
    ensures
        r == vault_links_spec(*state, vault0@, vault1@),
{
    if !vault0.equals(&state.vault0) {
        return Err(AmmError::InvalidArgument);
    }
    if !vault1.equals(&state.vault1) {
        return Err(AmmError::InvalidArgument);
    }
    Ok(())
}

/// The account data after writing `encoding` over its first bytes, or
/// `None` when the data is too short to hold it.
pub open spec fn overwrite_spec(data: Seq<u8>, encoding: Seq<u8>) -> Option<Seq<u8>> {
    if data.len() < encoding.len() {
        None
    } else {
        Some(encoding + data.skip(encoding.len() as int))
    }
}

/// Writes `encoding` over the first bytes of `data`.
pub fn overwrite_prefix(data: &Vec<u8>, encoding: &Vec<u8>) -> (r: Option<Vec<u8>>)
    ensures
        match r {
            Some(v) => overwrite_spec(data@, encoding@) == Some(v@),
            None => overwrite_spec(data@, encoding@) is None,
        },
{
    let n = data.len();
    let m = encoding.len();
    if n < m {
        return None;
    }
    let mut out = encoding.clone();
    let mut i = m;
    assert(out@ =~= encoding@ + data@.subrange(m as int, m as int));
    while i < n
        invariant
            m <= i <= n,
            n == data@.len(),
            m == encoding@.len(),
            out@ == encoding@ + data@.subrange(m as int, i as int),
        decreases n - i,
    {
        out.push(data[i]);
        assert(data@.subrange(m as int, i + 1) =~= data@.subrange(m as int, i as int).push(
            data@[i as int],
        ));
        assert(out@ =~= encoding@ + data@.subrange(m as int, i + 1));
        i = i + 1;
    }
    assert(data@.subrange(m as int, n as int) =~= data@.skip(m as int));
    Some(out)
}

/// The write that stores a pair state in an account of `PAIR_STATE_LEN`
/// bytes or more; a shorter account is refused as invalid account data.
pub open spec fn pair_write_spec(account: usize, data: Seq<u8>, s: PairState) -> Result<Seq<u8>, AmmError> {
    match overwrite_spec(data, pair_state_bytes(s)) {
        None => Err(AmmError::InvalidAccountData),
        Some(d) => Ok(d),
    }
}

/// Stores a pair state in the given account's data.
pub fn write_pair_state(account: usize, view: &AccountView, state: &PairState) -> (r: Result<
    AccountWrite,
    AmmError,
>)
    ensures
        match pair_write_spec(account, view.data@, *state) {
            Ok(d) => r matches Ok(w) && w.account == account && w.data@ == d,
            Err(e) => r == Err::<AccountWrite, AmmError>(e),
        },
{
    let encoding = state.to_bytes();
    match overwrite_prefix(&view.data, &encoding) {
        None => Err(AmmError::InvalidAccountData),
        Some(data) => Ok(AccountWrite { account, data }),
    }
}

/// A pair account holding exactly a pair state is overwritten by the new state.
pub proof fn lemma_pair_write_exact(account: usize, data: Seq<u8>, s: PairState)
    requires
        data.len() == PAIR_STATE_LEN,
    ensures
        pair_write_spec(account, data, s) == Ok::<Seq<u8>, AmmError>(pair_state_bytes(s)),
{
    crate::state::lemma_pair_state_codec(s, s);
    assert(pair_state_bytes(s) + data.skip(PAIR_STATE_LEN as int) =~= pair_state_bytes(s));
}

/// The pair state once reserves follow the vault balances and `k_last` is
/// recorded as their product, or why that is refused.
pub open spec fn settle_reserves_spec(
    env: Env,
    clock: AccountView,
    vault0_data: Seq<u8>,
    vault1_data: Seq<u8>,
    s: PairState,
) -> Result<PairState, AmmError> {
    match (token_balance_spec(vault0_data), token_balance_spec(vault1_data)) {
        (Err(e), _) => Err(e),
        (Ok(_), Err(e)) => Err(e),
        (Ok(balance0), Ok(balance1)) => match crate::amm::update_reserves_spec(
            s,
            clock.key@ == clock_sysvar_bytes(),
            clock.clock_timestamp,
            balance0,
            balance1,
        ) {
            Err(e) => Err(e),
            Ok(t) => Ok(PairState { k_last: (t.reserve0 * t.reserve1) as u128, ..t }),
        },
    }
}

/// Synchronizes reserves with the vault balances after tokens moved, and
/// records `k_last` as the product of the new reserves.
pub fn settle_reserves(
    env: &Env,
    clock: &AccountView,
    vault0: &AccountView,
    vault1: &AccountView,
    state: &PairState,
) -> (r: Result<PairState, AmmError>)
    ensures
        r == settle_reserves_spec(*env, *clock, vault0.data@, vault1.data@, *state),
{
    let balance0 = token_balance(vault0.data.as_slice())?;
    let balance1 = token_balance(vault1.data.as_slice())?;
    let mut s = *state;
    let reading = crate::amm::ClockReading { key: clock.key, unix_timestamp: clock.clock_timestamp };
    update_reserves_and_twap(&mut s, &reading, balance0, balance1)?;
    proof {
        crate::amm::lemma_u64_product_fits(s.reserve0, s.reserve1);
    }
    s.k_last = (s.reserve0 as u128) * (s.reserve1 as u128);
    Ok(s)
}

/// The invocation that creates the admin's LP account before a fee is minted.
pub open spec fn fee_create_cpi(fee: FeeMintAccounts, programs: SplProgramAccounts) -> Cpi {
    Cpi::CreateAta {
        payer: fee.payer,
        ata: fee.fee_recipient_lp,
        owner: fee.fee_recipient,
        mint: fee.lp_mint,
        system_program: programs.system_program,
        token_program: programs.token_program,
        ata_program: programs.ata_program,
        rent_sysvar: programs.rent_sysvar,
    }
}

} // verus!
