//! Adding liquidity: depositing both tokens for newly minted LP tokens.

use vstd::prelude::*;

use super::lib::{
    after, assert_token_account, ata_check_spec, check_ata, check_fee_recipient_lp,
    check_vault_links, create_ata_if_needed, fee_create_cpi, fee_recipient_lp_spec, is_mint_to,
    is_transfer, load_pair, load_pair_spec, mint_fee_if_needed, mint_fee_spec, mint_supply,
    mint_supply_spec, mint_to_signed, pair_signer_seeds, pair_signer_seeds_spec, pair_write_spec,
    require, settle_reserves, settle_reserves_spec, token_account_check_spec, transfer,
    vault_links_spec, write_pair_state, AccountView, AccountWrite, Cpi, Env, FeeMintAccounts,
    SplProgramAccounts, Step,
};
use crate::chain::{system_program_bytes, token_program_bytes, ata_program_bytes, rent_sysvar_bytes, system_program_id, token_program_id, ata_program_id, rent_sysvar_id};
use crate::amm::{add_liquidity_amounts, add_liquidity_spec};
use crate::constants::MINIMUM_LIQUIDITY;
use crate::error::AmmError;
use crate::state::PairState;

verus! {

/// Number of accounts `add_liquidity` reads.
pub const ADD_LIQUIDITY_ACCOUNTS: usize = 16;

/// Where a deposit stands.
#[derive(Clone, Copy, Debug)]
pub enum AddLiquidityStage {
    /// Nothing has happened yet.
    Start,
    /// The LP token accounts exist; the protocol fee is to be decided.
    Fee { state: PairState, bump: u8 },
    /// The admin's LP account exists; `fee` LP tokens are to be minted to it.
    FeeMint { state: PairState, bump: u8, fee: u128 },
    /// The fee is settled; the deposit is to be priced and made.
    Deposit { state: PairState, bump: u8 },
    /// Tokens have moved; the reserves are to be synchronized.
    Settle { state: PairState },
}

/// Positions of the shared program accounts of `add_liquidity`.
pub open spec fn add_programs() -> SplProgramAccounts {
    SplProgramAccounts { token_program: 11, ata_program: 12, system_program: 13, rent_sysvar: 14 }
}

/// Positions of the fee accounts of `add_liquidity`.
pub open spec fn add_fee_accounts() -> FeeMintAccounts {
    FeeMintAccounts { payer: 0, pair: 1, lp_mint: 6, fee_recipient: 9, fee_recipient_lp: 10 }
}

/// The checks made before any account is created.
pub open spec fn add_start_spec(
    env: Env,
    accounts: Seq<AccountView>,
    amount0_desired: u64,
    amount1_desired: u64,
) -> Result<(PairState, u8), AmmError> {
    if accounts.len() < ADD_LIQUIDITY_ACCOUNTS {
        Err(AmmError::NotEnoughAccountKeys)
    } else {
        let payer = accounts[0];
        let pair = accounts[1];
        after(
            require(payer.is_signer, AmmError::MissingRequiredSignature),
            after(
                require(accounts[13].key@ == system_program_bytes(), AmmError::IncorrectProgramId),
                after(
                    require(accounts[11].key@ == token_program_bytes(), AmmError::IncorrectProgramId),
                    after(
                        require(accounts[12].key@ == ata_program_bytes(), AmmError::IncorrectProgramId),
                        after(
                            require(accounts[14].key@ == rent_sysvar_bytes(), AmmError::InvalidAccountData),
                            after(
                                require(
                                    amount0_desired != 0 && amount1_desired != 0,
                                    AmmError::InvalidArgument,
                                ),
                                match load_pair_spec(env.program_id@, pair) {
                                    Err(e) => Err(e),
                                    Ok((s, bump)) => add_start_links_spec(env, accounts, s, bump),
                                },
                            ),
                        ),
                    ),
                ),
            ),
        )
    }
}

/// The account linkage checks of a deposit, once the pair is loaded.
pub open spec fn add_start_links_spec(env: Env, accounts: Seq<AccountView>, s: PairState, bump: u8) -> Result<
    (PairState, u8),
    AmmError,
> {
    let payer = accounts[0];
    let pair = accounts[1];
    after(
        vault_links_spec(s, accounts[4].key@, accounts[5].key@),
        after(
            require(accounts[6].key@ == s.lp_mint@, AmmError::InvalidArgument),
            after(
                token_account_check_spec(accounts[2].data@, payer.key@, s.token0_mint@),
                after(
                    token_account_check_spec(accounts[3].data@, payer.key@, s.token1_mint@),
                    after(
                        token_account_check_spec(accounts[4].data@, pair.key@, s.token0_mint@),
                        after(
                            token_account_check_spec(accounts[5].data@, pair.key@, s.token1_mint@),
                            after(
                                ata_check_spec(accounts[2].key@, payer.key@, s.token0_mint@),
                                after(
                                    ata_check_spec(accounts[3].key@, payer.key@, s.token1_mint@),
                                    after(
                                        ata_check_spec(accounts[4].key@, pair.key@, s.token0_mint@),
                                        after(
                                            ata_check_spec(accounts[5].key@, pair.key@, s.token1_mint@),
                                            after(
                                                require(
                                                    accounts[6].owner@ == accounts[11].key@,
                                                    AmmError::IllegalOwner,
                                                ),
                                                Ok((s, bump)),
                                            ),
                                        ),
                                    ),
                                ),
                            ),
                        ),
                    ),
                ),
            ),
        ),
    )
}

/// The checks made once the LP token accounts exist, then the protocol fee decision.
pub open spec fn add_fee_spec(env: Env, accounts: Seq<AccountView>, s: PairState) -> Result<u128, AmmError> {
    if accounts.len() < ADD_LIQUIDITY_ACCOUNTS {
        Err(AmmError::NotEnoughAccountKeys)
    } else {
        let payer = accounts[0];
        let pair = accounts[1];
        let lp_mint = accounts[6];
        after(
            token_account_check_spec(accounts[7].data@, payer.key@, lp_mint.key@),
            after(
                token_account_check_spec(accounts[8].data@, pair.key@, lp_mint.key@),
                after(
                    ata_check_spec(accounts[7].key@, payer.key@, lp_mint.key@),
                    after(
                        ata_check_spec(accounts[8].key@, pair.key@, lp_mint.key@),
                        mint_fee_spec(s, accounts[9].key@, lp_mint.data@),
                    ),
                ),
            ),
        )
    }
}

/// The priced deposit: amounts used, LP minted to the depositor, and whether
/// `MINIMUM_LIQUIDITY` is locked.
pub open spec fn add_deposit_spec(
    accounts: Seq<AccountView>,
    s: PairState,
    amount0_desired: u64,
    amount1_desired: u64,
    amount0_min: u64,
    amount1_min: u64,
) -> Result<(int, int, int, bool), AmmError> {
    if accounts.len() < ADD_LIQUIDITY_ACCOUNTS {
        Err(AmmError::NotEnoughAccountKeys)
    } else {
        match mint_supply_spec(accounts[6].data@) {
            Err(e) => Err(e),
            Ok(supply) => add_liquidity_spec(
                s.reserve0 as int,
                s.reserve1 as int,
                supply as int,
                amount0_desired as int,
                amount1_desired as int,
                amount0_min as int,
                amount1_min as int,
            ),
        }
    }
}

/// The deposit transfers from the payer (token0 then token1, each only when
/// positive), then the locked mint on a first deposit, then the mint to the
/// payer, both signed by the pair PDA.
pub open spec fn add_deposit_cpis(
    cpis: Seq<Cpi>,
    amount0: u64,
    amount1: u64,
    liquidity: u64,
    lock_minimum: bool,
    seeds: Seq<Seq<u8>>,
) -> bool {
    let n0: int = if amount0 > 0 { 1 } else { 0 };
    let n1: int = if amount1 > 0 { 1 } else { 0 };
    let n2: int = if lock_minimum { 1 } else { 0 };
    &&& cpis.len() == n0 + n1 + n2 + 1
    &&& amount0 > 0 ==> is_transfer(cpis[0], 11, 2, 4, 0, amount0, Seq::empty())
    &&& amount1 > 0 ==> is_transfer(cpis[n0], 11, 3, 5, 0, amount1, Seq::empty())
    &&& lock_minimum ==> is_mint_to(cpis[n0 + n1], 11, 6, 8, 1, MINIMUM_LIQUIDITY, seeds)
    &&& is_mint_to(cpis[n0 + n1 + n2], 11, 6, 7, 1, liquidity, seeds)
}

/// What the deposit step yields: the transfers and mints, then settlement.
pub open spec fn add_deposit_outcome(
    r: Result<Step<AddLiquidityStage>, AmmError>,
    accounts: Seq<AccountView>,
    s: PairState,
    bump: u8,
    amount0_desired: u64,
    amount1_desired: u64,
    amount0_min: u64,
    amount1_min: u64,
) -> bool {
    match add_deposit_spec(accounts, s, amount0_desired, amount1_desired, amount0_min, amount1_min) {
        Ok((a0, a1, liquidity, lock)) => r matches Ok(Step::Invoke { cpis, next }) && next == (
        AddLiquidityStage::Settle { state: s }) && add_deposit_cpis(
            cpis@,
            a0 as u64,
            a1 as u64,
            liquidity as u64,
            lock,
            pair_signer_seeds_spec(s, bump),
        ),
        Err(e) => r == Err::<Step<AddLiquidityStage>, AmmError>(e),
    }
}

fn add_deposit(
    accounts: &Vec<AccountView>,
    amount0_desired: u64,
    amount1_desired: u64,
    amount0_min: u64,
    amount1_min: u64,
    state: PairState,
    bump: u8,
) -> (r: Result<Step<AddLiquidityStage>, AmmError>)
    requires
        accounts@.len() >= ADD_LIQUIDITY_ACCOUNTS,
    ensures
        add_deposit_outcome(
            r,
            accounts@,
            state,
            bump,
            amount0_desired,
            amount1_desired,
            amount0_min,
            amount1_min,
        ),
{
    let total_supply = mint_supply(accounts[6].data.as_slice())?;
    let deposit = add_liquidity_amounts(
        state.reserve0,
        state.reserve1,
        total_supply,
        amount0_desired,
        amount1_desired,
        amount0_min,
        amount1_min,
    )?;
    let mut cpis: Vec<Cpi> = Vec::new();
    if deposit.amount0 > 0 {
        cpis.push(transfer(11, 2, 4, 0, deposit.amount0));
    }
    if deposit.amount1 > 0 {
        cpis.push(transfer(11, 3, 5, 0, deposit.amount1));
    }
    if deposit.lock_minimum {
        cpis.push(mint_to_signed(11, 6, 8, 1, MINIMUM_LIQUIDITY, pair_signer_seeds(&state, bump)));
    }
    cpis.push(mint_to_signed(11, 6, 7, 1, deposit.liquidity, pair_signer_seeds(&state, bump)));
    Ok(Step::Invoke { cpis, next: AddLiquidityStage::Settle { state } })
}

/// What a deposit step yields.
pub open spec fn add_liquidity_post(env: Env, accounts: Seq<AccountView>, amount0_desired: u64, amount1_desired: u64, amount0_min: u64, amount1_min: u64, stage: AddLiquidityStage, r: Result<Step<AddLiquidityStage>, AmmError>) -> bool {
    &&& (stage is Start ==> match add_start_spec(env, accounts, amount0_desired, amount1_desired) {
        Ok((s, bump)) => r matches Ok(Step::Invoke { cpis, next }) && next == (
        AddLiquidityStage::Fee { state: s, bump }) && cpis@ =~= seq![
            Cpi::CreateAta {
                payer: 0,
                ata: 7,
                owner: 0,
                mint: 6,
                system_program: 13,
                token_program: 11,
                ata_program: 12,
                rent_sysvar: 14,
            },
            Cpi::CreateAta {
                payer: 0,
                ata: 8,
                owner: 1,
                mint: 6,
                system_program: 13,
                token_program: 11,
                ata_program: 12,
                rent_sysvar: 14,
            },
        ],
        Err(e) => r == Err::<Step<AddLiquidityStage>, AmmError>(e),
    })
    &&& (stage matches AddLiquidityStage::Fee { state, bump } ==> match add_fee_spec(
        env,
        accounts,
        state,
    ) {
        Ok(fee) => if fee > 0 {
            r matches Ok(Step::Invoke { cpis, next }) && next == (AddLiquidityStage::FeeMint {
                state,
                bump,
                fee,
            }) && cpis@ =~= seq![fee_create_cpi(add_fee_accounts(), add_programs())]
        } else {
            add_deposit_outcome(
                r,
                accounts,
                state,
                bump,
                amount0_desired,
                amount1_desired,
                amount0_min,
                amount1_min,
            )
        },
        Err(e) => r == Err::<Step<AddLiquidityStage>, AmmError>(e),
    })
    &&& (stage matches AddLiquidityStage::FeeMint { state, bump, fee } ==> (accounts.len()
        < ADD_LIQUIDITY_ACCOUNTS ==> r == Err::<Step<AddLiquidityStage>, AmmError>(
        AmmError::NotEnoughAccountKeys,
    )) && (accounts.len() >= ADD_LIQUIDITY_ACCOUNTS ==> match fee_recipient_lp_spec(
        accounts[10].key@,
        accounts[9].key@,
        accounts[6].key@,
        accounts[10].data@,
        fee,
    ) {
        Ok(amount) => r matches Ok(Step::Invoke { cpis, next }) && next == (
        AddLiquidityStage::Deposit { state, bump }) && cpis@.len() == 1 && is_mint_to(
            cpis@[0],
            11,
            6,
            10,
            1,
            amount,
            pair_signer_seeds_spec(state, bump),
        ),
        Err(e) => r == Err::<Step<AddLiquidityStage>, AmmError>(e),
    }))
    &&& (stage matches AddLiquidityStage::Deposit { state, bump } ==> add_deposit_outcome(
        r,
        accounts,
        state,
        bump,
        amount0_desired,
        amount1_desired,
        amount0_min,
        amount1_min,
    ))
    &&& (stage matches AddLiquidityStage::Settle { state } ==> (accounts.len()
        < ADD_LIQUIDITY_ACCOUNTS ==> r == Err::<Step<AddLiquidityStage>, AmmError>(
        AmmError::NotEnoughAccountKeys,
    )) && (accounts.len() >= ADD_LIQUIDITY_ACCOUNTS ==> match settle_reserves_spec(
        env,
        accounts[15],
        accounts[4].data@,
        accounts[5].data@,
        state,
    ) {
        Ok(t) => match pair_write_spec(1, accounts[1].data@, t) {
            Ok(d) => r matches Ok(Step::Finish { writes }) && writes@.len() == 1
                && writes@[0].account == 1 && writes@[0].data@ == d,
            Err(e) => r == Err::<Step<AddLiquidityStage>, AmmError>(e),
        },
        Err(e) => r == Err::<Step<AddLiquidityStage>, AmmError>(e),
    }))
}

fn add_start(env: &Env, accounts: &Vec<AccountView>, amount0_desired: u64, amount1_desired: u64, amount0_min: u64, amount1_min: u64) -> (r: Result<Step<AddLiquidityStage>, AmmError>)
    requires
        accounts@.len() >= ADD_LIQUIDITY_ACCOUNTS,
    ensures
        add_liquidity_post(*env, accounts@, amount0_desired, amount1_desired, amount0_min, amount1_min, AddLiquidityStage::Start, r),
{
    let programs = SplProgramAccounts {
        token_program: 11,
        ata_program: 12,
        system_program: 13,
        rent_sysvar: 14,
    };
        let payer = &accounts[0];
        let pair = &accounts[1];
        if !payer.is_signer {
            return Err(AmmError::MissingRequiredSignature);
        }
        if !accounts[13].key.equals(&system_program_id()) {
            return Err(AmmError::IncorrectProgramId);
        }
        if !accounts[11].key.equals(&token_program_id()) {
            return Err(AmmError::IncorrectProgramId);
        }
        if !accounts[12].key.equals(&ata_program_id()) {
            return Err(AmmError::IncorrectProgramId);
        }
        if !accounts[14].key.equals(&rent_sysvar_id()) {
            return Err(AmmError::InvalidAccountData);
        }
        if amount0_desired == 0 || amount1_desired == 0 {
            return Err(AmmError::InvalidArgument);
        }
        let (state, bump) = load_pair(&env.program_id, pair)?;
        check_vault_links(&state, &accounts[4].key, &accounts[5].key)?;
        if !accounts[6].key.equals(&state.lp_mint) {
            return Err(AmmError::InvalidArgument);
        }
        assert_token_account(accounts[2].data.as_slice(), &payer.key, &state.token0_mint)?;
        assert_token_account(accounts[3].data.as_slice(), &payer.key, &state.token1_mint)?;
        assert_token_account(accounts[4].data.as_slice(), &pair.key, &state.token0_mint)?;
        assert_token_account(accounts[5].data.as_slice(), &pair.key, &state.token1_mint)?;
        check_ata(&accounts[2].key, &payer.key, &state.token0_mint)?;
        check_ata(&accounts[3].key, &payer.key, &state.token1_mint)?;
        check_ata(&accounts[4].key, &pair.key, &state.token0_mint)?;
        check_ata(&accounts[5].key, &pair.key, &state.token1_mint)?;
        if !accounts[6].owner.equals(&accounts[11].key) {
            return Err(AmmError::IllegalOwner);
        }
        let mut cpis: Vec<Cpi> = Vec::new();
        cpis.push(create_ata_if_needed(0, 7, 0, 6, &programs));
        cpis.push(create_ata_if_needed(0, 8, 1, 6, &programs));
        Ok(Step::Invoke { cpis, next: AddLiquidityStage::Fee { state, bump } })
}

fn add_fee(env: &Env, accounts: &Vec<AccountView>, amount0_desired: u64, amount1_desired: u64, amount0_min: u64, amount1_min: u64, state: PairState, bump: u8) -> (r: Result<Step<AddLiquidityStage>, AmmError>)
    requires
        accounts@.len() >= ADD_LIQUIDITY_ACCOUNTS,
    ensures
        add_liquidity_post(*env, accounts@, amount0_desired, amount1_desired, amount0_min, amount1_min, AddLiquidityStage::Fee { state, bump }, r),
{
    let programs = SplProgramAccounts {
        token_program: 11,
        ata_program: 12,
        system_program: 13,
        rent_sysvar: 14,
    };
        let payer = &accounts[0];
        let pair = &accounts[1];
        let lp_mint = &accounts[6];
        assert_token_account(accounts[7].data.as_slice(), &payer.key, &lp_mint.key)?;
        assert_token_account(accounts[8].data.as_slice(), &pair.key, &lp_mint.key)?;
        check_ata(&accounts[7].key, &payer.key, &lp_mint.key)?;
        check_ata(&accounts[8].key, &pair.key, &lp_mint.key)?;
        let fee = mint_fee_if_needed(&state, &accounts[9].key, lp_mint.data.as_slice())?;
        if fee > 0 {
            let mut cpis: Vec<Cpi> = Vec::new();
            cpis.push(create_ata_if_needed(0, 10, 9, 6, &programs));
            Ok(Step::Invoke { cpis, next: AddLiquidityStage::FeeMint { state, bump, fee } })
        } else {
            add_deposit(
                accounts,
                amount0_desired,
                amount1_desired,
                amount0_min,
                amount1_min,
                state,
                bump,
            )
        }
}

fn add_fee_mint(env: &Env, accounts: &Vec<AccountView>, amount0_desired: u64, amount1_desired: u64, amount0_min: u64, amount1_min: u64, state: PairState, bump: u8, fee: u128) -> (r: Result<Step<AddLiquidityStage>, AmmError>)
    requires
        accounts@.len() >= ADD_LIQUIDITY_ACCOUNTS,
    ensures
        add_liquidity_post(*env, accounts@, amount0_desired, amount1_desired, amount0_min, amount1_min, AddLiquidityStage::FeeMint { state, bump, fee }, r),
{
        let amount = check_fee_recipient_lp(
            &accounts[10],
            &accounts[9].key,
            &accounts[6].key,
            fee,
        )?;
        let mut cpis: Vec<Cpi> = Vec::new();
        cpis.push(mint_to_signed(11, 6, 10, 1, amount, pair_signer_seeds(&state, bump)));
        Ok(Step::Invoke { cpis, next: AddLiquidityStage::Deposit { state, bump } })
}

fn add_settle(env: &Env, accounts: &Vec<AccountView>, amount0_desired: u64, amount1_desired: u64, amount0_min: u64, amount1_min: u64, state: PairState) -> (r: Result<Step<AddLiquidityStage>, AmmError>)
    requires
        accounts@.len() >= ADD_LIQUIDITY_ACCOUNTS,
    ensures
        add_liquidity_post(*env, accounts@, amount0_desired, amount1_desired, amount0_min, amount1_min, AddLiquidityStage::Settle { state }, r),
{
        let settled = settle_reserves(env, &accounts[15], &accounts[4], &accounts[5], &state)?;
        let write = write_pair_state(1, &accounts[1], &settled)?;
        let mut writes: Vec<AccountWrite> = Vec::new();
        writes.push(write);
        Ok(Step::Finish { writes })
}

/// Adds liquidity into an existing pair or bootstraps the initial reserves.
///
/// On the first deposit the instruction permanently locks
/// `MINIMUM_LIQUIDITY` LP tokens to the pair PDA to avoid edge cases around
/// total supply.
///
/// Accounts: 0) payer (signer), 1) pair PDA (writable), 2) payer token0 ATA,
/// 3) payer token1 ATA, 4) vault0 ATA, 5) vault1 ATA, 6) LP mint PDA, 7) payer
/// LP ATA, 8) locked LP ATA of the pair, 9) admin (protocol fee recipient),
/// 10) admin LP ATA, 11) token program, 12) ATA program, 13) system program,
/// 14) rent sysvar, 15) clock sysvar.
pub fn add_liquidity(
    env: &Env,
    accounts: &Vec<AccountView>,
    amount0_desired: u64,
    amount1_desired: u64,
    amount0_min: u64,
    amount1_min: u64,
    stage: AddLiquidityStage,
) -> (r: Result<Step<AddLiquidityStage>, AmmError>)
    ensures
        add_liquidity_post(*env, accounts@, amount0_desired, amount1_desired, amount0_min, amount1_min, stage, r),
{
    if accounts.len() < ADD_LIQUIDITY_ACCOUNTS {
        return Err(AmmError::NotEnoughAccountKeys);
    }
    match stage {
        AddLiquidityStage::Start => add_start(env, accounts, amount0_desired, amount1_desired, amount0_min, amount1_min),
        AddLiquidityStage::Fee { state, bump } => add_fee(env, accounts, amount0_desired, amount1_desired, amount0_min, amount1_min, state, bump),
        AddLiquidityStage::FeeMint { state, bump, fee } => add_fee_mint(env, accounts, amount0_desired, amount1_desired, amount0_min, amount1_min, state, bump, fee),
        AddLiquidityStage::Deposit { state, bump } => add_deposit(accounts, amount0_desired, amount1_desired, amount0_min, amount1_min, state, bump),
        AddLiquidityStage::Settle { state } => add_settle(env, accounts, amount0_desired, amount1_desired, amount0_min, amount1_min, state),
    }
}

} // verus!
