//! Removing liquidity: burning LP tokens for a pro-rata share of the vaults.

use vstd::prelude::*;

use super::lib::{
    after, assert_token_account, ata_check_spec, burn, check_ata, check_fee_recipient_lp,
    check_vault_links, create_ata_if_needed, fee_create_cpi, fee_recipient_lp_spec, is_mint_to,
    is_transfer, load_pair, load_pair_spec, mint_fee_if_needed, mint_fee_spec, mint_supply,
    mint_supply_spec, mint_to_signed, pair_signer_seeds, pair_signer_seeds_spec, pair_write_spec,
    require, settle_reserves, settle_reserves_spec, token_account_check_spec, token_balance,
    token_balance_spec, transfer_signed, vault_links_spec, write_pair_state, AccountView,
    AccountWrite, Cpi, Env, FeeMintAccounts, SplProgramAccounts, Step,
};
use crate::chain::{system_program_bytes, token_program_bytes, ata_program_bytes, rent_sysvar_bytes, system_program_id, token_program_id, ata_program_id, rent_sysvar_id};
use crate::amm::{remove_liquidity_amounts, remove_liquidity_spec};
use crate::error::AmmError;
use crate::state::PairState;

verus! {

/// Number of accounts `remove_liquidity` reads.
pub const REMOVE_LIQUIDITY_ACCOUNTS: usize = 17;

/// Where a withdrawal stands.
#[derive(Clone, Copy, Debug)]
pub enum RemoveLiquidityStage {
    /// Nothing has happened yet.
    Start,
    /// The payer's token accounts exist; the protocol fee is to be decided.
    Fee { state: PairState, bump: u8 },
    /// The admin's LP account exists; `fee` LP tokens are to be minted to it.
    FeeMint { state: PairState, bump: u8, fee: u128 },
    /// The fee is settled; the LP tokens are to be burned and the share paid out.
    Withdraw { state: PairState, bump: u8 },
    /// Tokens have moved; the reserves are to be synchronized.
    Settle { state: PairState },
}

/// Positions of the shared program accounts of `remove_liquidity`.
pub open spec fn remove_programs() -> SplProgramAccounts {
    SplProgramAccounts { token_program: 12, ata_program: 13, system_program: 14, rent_sysvar: 15 }
}

/// Positions of the fee accounts of `remove_liquidity`.
pub open spec fn remove_fee_accounts() -> FeeMintAccounts {
    FeeMintAccounts { payer: 0, pair: 1, lp_mint: 8, fee_recipient: 10, fee_recipient_lp: 11 }
}

/// The checks made before any account is created.
pub open spec fn remove_start_spec(env: Env, accounts: Seq<AccountView>, liquidity: u64) -> Result<
    (PairState, u8),
    AmmError,
> {
    if accounts.len() < REMOVE_LIQUIDITY_ACCOUNTS {
        Err(AmmError::NotEnoughAccountKeys)
    } else {
        let payer = accounts[0];
        let pair = accounts[1];
        let lp_mint = accounts[8];
        after(
            require(payer.is_signer, AmmError::MissingRequiredSignature),
            after(
                require(accounts[14].key@ == system_program_bytes(), AmmError::IncorrectProgramId),
                after(
                    require(accounts[12].key@ == token_program_bytes(), AmmError::IncorrectProgramId),
                    after(
                        require(accounts[13].key@ == ata_program_bytes(), AmmError::IncorrectProgramId),
                        after(
                            require(accounts[15].key@ == rent_sysvar_bytes(), AmmError::InvalidAccountData),
                            after(
                                require(liquidity != 0, AmmError::InvalidArgument),
                                match load_pair_spec(env.program_id@, pair) {
                                    Err(e) => Err(e),
                                    Ok((s, bump)) => after(
                                        vault_links_spec(s, accounts[6].key@, accounts[7].key@),
                                        after(
                                            require(lp_mint.key@ == s.lp_mint@, AmmError::InvalidArgument),
                                            after(
                                                require(accounts[2].key@ == s.token0_mint@, AmmError::InvalidArgument),
                                                after(
                                                    require(accounts[3].key@ == s.token1_mint@, AmmError::InvalidArgument),
                                                    remove_start_atas_spec(env, accounts, s, bump),
                                                ),
                                            ),
                                        ),
                                    ),
                                },
                            ),
                        ),
                    ),
                ),
            ),
        )
    }
}

/// The associated token addresses checked before the payer's token accounts are created.
pub open spec fn remove_start_atas_spec(env: Env, accounts: Seq<AccountView>, s: PairState, bump: u8) -> Result<
    (PairState, u8),
    AmmError,
> {
    let payer = accounts[0];
    let pair = accounts[1];
    after(
        ata_check_spec(accounts[4].key@, payer.key@, s.token0_mint@),
        after(
            ata_check_spec(accounts[5].key@, payer.key@, s.token1_mint@),
            after(
                ata_check_spec(accounts[6].key@, pair.key@, s.token0_mint@),
                after(
                    ata_check_spec(accounts[7].key@, pair.key@, s.token1_mint@),
                    after(
                        ata_check_spec(accounts[9].key@, payer.key@, accounts[8].key@),
                        Ok((s, bump)),
                    ),
                ),
            ),
        ),
    )
}

/// The checks made once the payer's token accounts exist, then the protocol fee decision.
pub open spec fn remove_fee_spec(accounts: Seq<AccountView>, s: PairState) -> Result<u128, AmmError> {
    if accounts.len() < REMOVE_LIQUIDITY_ACCOUNTS {
        Err(AmmError::NotEnoughAccountKeys)
    } else {
        let payer = accounts[0];
        let pair = accounts[1];
        let lp_mint = accounts[8];
        after(
            token_account_check_spec(accounts[4].data@, payer.key@, s.token0_mint@),
            after(
                token_account_check_spec(accounts[5].data@, payer.key@, s.token1_mint@),
                after(
                    token_account_check_spec(accounts[6].data@, pair.key@, s.token0_mint@),
                    after(
                        token_account_check_spec(accounts[7].data@, pair.key@, s.token1_mint@),
                        after(
                            token_account_check_spec(accounts[9].data@, payer.key@, lp_mint.key@),
                            after(
                                require(lp_mint.owner@ == accounts[12].key@, AmmError::IllegalOwner),
                                mint_fee_spec(s, accounts[10].key@, lp_mint.data@),
                            ),
                        ),
                    ),
                ),
            ),
        )
    }
}

/// The amounts paid out for burning `liquidity`, priced on the current vault
/// balances and LP supply.
pub open spec fn remove_withdraw_spec(
    accounts: Seq<AccountView>,
    liquidity: u64,
    amount0_min: u64,
    amount1_min: u64,
) -> Result<(u64, u64), AmmError> {
    if accounts.len() < REMOVE_LIQUIDITY_ACCOUNTS {
        Err(AmmError::NotEnoughAccountKeys)
    } else {
        match (token_balance_spec(accounts[6].data@), token_balance_spec(accounts[7].data@)) {
            (Err(e), _) => Err(e),
            (Ok(_), Err(e)) => Err(e),
            (Ok(balance0), Ok(balance1)) => after(
                require(balance0 != 0 && balance1 != 0, AmmError::InvalidAccountData),
                match mint_supply_spec(accounts[8].data@) {
                    Err(e) => Err(e),
                    Ok(supply) => match remove_liquidity_spec(
                        liquidity as int,
                        balance0 as int,
                        balance1 as int,
                        supply as int,
                        amount0_min as int,
                        amount1_min as int,
                    ) {
                        Err(e) => Err(e),
                        Ok((a0, a1)) => Ok((a0 as u64, a1 as u64)),
                    },
                },
            ),
        }
    }
}

/// The burn of the LP tokens, then the payouts from each vault, signed by the pair PDA.
pub open spec fn remove_withdraw_cpis(
    cpis: Seq<Cpi>,
    liquidity: u64,
    amount0: u64,
    amount1: u64,
    seeds: Seq<Seq<u8>>,
) -> bool {
    &&& cpis.len() == 3
    &&& cpis[0] == (Cpi::Burn { token_program: 12, source: 9, mint: 8, authority: 0, amount: liquidity })
    &&& is_transfer(cpis[1], 12, 6, 4, 1, amount0, seeds)
    &&& is_transfer(cpis[2], 12, 7, 5, 1, amount1, seeds)
}

/// What the withdrawal step yields: the burn and payouts, then settlement.
pub open spec fn remove_withdraw_outcome(
    r: Result<Step<RemoveLiquidityStage>, AmmError>,
    accounts: Seq<AccountView>,
    s: PairState,
    bump: u8,
    liquidity: u64,
    amount0_min: u64,
    amount1_min: u64,
) -> bool {
    match remove_withdraw_spec(accounts, liquidity, amount0_min, amount1_min) {
        Ok((a0, a1)) => r matches Ok(Step::Invoke { cpis, next }) && next == (
        RemoveLiquidityStage::Settle { state: s }) && remove_withdraw_cpis(
            cpis@,
            liquidity,
            a0,
            a1,
            pair_signer_seeds_spec(s, bump),
        ),
        Err(e) => r == Err::<Step<RemoveLiquidityStage>, AmmError>(e),
    }
}

/// A withdrawal never drains the pool: the burn leaves LP supply, and when
/// the settle step reads the vaults as the withdraw step left them (each lower
/// by what it paid out), both stored reserves are positive and `k_last` is
/// their positive product.
pub proof fn lemma_withdrawal_leaves_pool_funded(
    env: Env,
    before: Seq<AccountView>,
    settled: Seq<AccountView>,
    liquidity: u64,
    amount0_min: u64,
    amount1_min: u64,
    s: PairState,
    balance0: u64,
    balance1: u64,
    supply: u64,
    amount0: u64,
    amount1: u64,
    t: PairState,
)
    requires
        remove_withdraw_spec(before, liquidity, amount0_min, amount1_min) == Ok::<
            (u64, u64),
            AmmError,
        >((amount0, amount1)),
        token_balance_spec(before[6].data@) == Ok::<u64, AmmError>(balance0),
        token_balance_spec(before[7].data@) == Ok::<u64, AmmError>(balance1),
        mint_supply_spec(before[8].data@) == Ok::<u64, AmmError>(supply),
        token_balance_spec(settled[6].data@) == Ok::<u64, AmmError>((balance0 - amount0) as u64),
        token_balance_spec(settled[7].data@) == Ok::<u64, AmmError>((balance1 - amount1) as u64),
        settle_reserves_spec(env, settled[16], settled[6].data@, settled[7].data@, s) == Ok::<
            PairState,
            AmmError,
        >(t),
    ensures
        liquidity < supply,
        t.reserve0 == balance0 - amount0,
        t.reserve1 == balance1 - amount1,
        t.reserve0 > 0,
        t.reserve1 > 0,
        t.k_last == t.reserve0 * t.reserve1,
        t.k_last > 0,
{
    let r = remove_liquidity_spec(
        liquidity as int,
        balance0 as int,
        balance1 as int,
        supply as int,
        amount0_min as int,
        amount1_min as int,
    );
    let (a0, a1) = r->Ok_0;
    crate::laws::lemma_withdraw_pro_rata(
        liquidity as int,
        balance0 as int,
        balance1 as int,
        supply as int,
        amount0_min as int,
        amount1_min as int,
        a0,
        a1,
    );
    let u = crate::amm::update_reserves_spec(
        s,
        settled[16].key@ == crate::chain::clock_sysvar_bytes(),
        settled[16].clock_timestamp,
        (balance0 - amount0) as u64,
        (balance1 - amount1) as u64,
    )->Ok_0;
    crate::laws::lemma_update_reserves_effect(
        s,
        settled[16].key@ == crate::chain::clock_sysvar_bytes(),
        settled[16].clock_timestamp,
        (balance0 - amount0) as u64,
        (balance1 - amount1) as u64,
        u,
    );
    crate::amm::lemma_u64_product_fits(u.reserve0, u.reserve1);
    assert((u.reserve0 as int) * (u.reserve1 as int) > 0) by (nonlinear_arith)
        requires
            u.reserve0 > 0,
            u.reserve1 > 0,
    ;
}

fn remove_withdraw(
    accounts: &Vec<AccountView>,
    liquidity: u64,
    amount0_min: u64,
    amount1_min: u64,
    state: PairState,
    bump: u8,
) -> (r: Result<Step<RemoveLiquidityStage>, AmmError>)
    requires
        accounts@.len() >= REMOVE_LIQUIDITY_ACCOUNTS,
    ensures
        remove_withdraw_outcome(r, accounts@, state, bump, liquidity, amount0_min, amount1_min),
{
    let balance0 = token_balance(accounts[6].data.as_slice())?;
    let balance1 = token_balance(accounts[7].data.as_slice())?;
    if balance0 == 0 || balance1 == 0 {
        return Err(AmmError::InvalidAccountData);
    }
    let total_supply = mint_supply(accounts[8].data.as_slice())?;
    let (amount0, amount1) = remove_liquidity_amounts(
        liquidity,
        balance0,
        balance1,
        total_supply,
        amount0_min,
        amount1_min,
    )?;
    let mut cpis: Vec<Cpi> = Vec::new();
    cpis.push(burn(12, 9, 8, 0, liquidity));
    cpis.push(transfer_signed(12, 6, 4, 1, amount0, pair_signer_seeds(&state, bump)));
    cpis.push(transfer_signed(12, 7, 5, 1, amount1, pair_signer_seeds(&state, bump)));
    Ok(Step::Invoke { cpis, next: RemoveLiquidityStage::Settle { state } })
}

/// What a withdrawal step yields.
pub open spec fn remove_liquidity_post(env: Env, accounts: Seq<AccountView>, liquidity: u64, amount0_min: u64, amount1_min: u64, stage: RemoveLiquidityStage, r: Result<Step<RemoveLiquidityStage>, AmmError>) -> bool {
    &&& (stage is Start ==> match remove_start_spec(env, accounts, liquidity) {
        Ok((s, bump)) => r matches Ok(Step::Invoke { cpis, next }) && next == (
        RemoveLiquidityStage::Fee { state: s, bump }) && cpis@ =~= seq![
            Cpi::CreateAta {
                payer: 0,
                ata: 4,
                owner: 0,
                mint: 2,
                system_program: 14,
                token_program: 12,
                ata_program: 13,
                rent_sysvar: 15,
            },
            Cpi::CreateAta {
                payer: 0,
                ata: 5,
                owner: 0,
                mint: 3,
                system_program: 14,
                token_program: 12,
                ata_program: 13,
                rent_sysvar: 15,
            },
        ],
        Err(e) => r == Err::<Step<RemoveLiquidityStage>, AmmError>(e),
    })
    &&& (stage matches RemoveLiquidityStage::Fee { state, bump } ==> match remove_fee_spec(
        accounts,
        state,
    ) {
        Ok(fee) => if fee > 0 {
            r matches Ok(Step::Invoke { cpis, next }) && next == (RemoveLiquidityStage::FeeMint {
                state,
                bump,
                fee,
            }) && cpis@ =~= seq![fee_create_cpi(remove_fee_accounts(), remove_programs())]
        } else {
            remove_withdraw_outcome(r, accounts, state, bump, liquidity, amount0_min, amount1_min)
        },
        Err(e) => r == Err::<Step<RemoveLiquidityStage>, AmmError>(e),
    })
    &&& (stage matches RemoveLiquidityStage::FeeMint { state, bump, fee } ==> (
    accounts.len() < REMOVE_LIQUIDITY_ACCOUNTS ==> r == Err::<
        Step<RemoveLiquidityStage>,
        AmmError,
    >(AmmError::NotEnoughAccountKeys)) && (accounts.len() >= REMOVE_LIQUIDITY_ACCOUNTS ==> match fee_recipient_lp_spec(
        accounts[11].key@,
        accounts[10].key@,
        accounts[8].key@,
        accounts[11].data@,
        fee,
    ) {
        Ok(amount) => r matches Ok(Step::Invoke { cpis, next }) && next == (
        RemoveLiquidityStage::Withdraw { state, bump }) && cpis@.len() == 1 && is_mint_to(
            cpis@[0],
            12,
            8,
            11,
            1,
            amount,
            pair_signer_seeds_spec(state, bump),
        ),
        Err(e) => r == Err::<Step<RemoveLiquidityStage>, AmmError>(e),
    }))
    &&& (stage matches RemoveLiquidityStage::Withdraw { state, bump } ==> remove_withdraw_outcome(
        r,
        accounts,
        state,
        bump,
        liquidity,
        amount0_min,
        amount1_min,
    ))
    &&& (stage matches RemoveLiquidityStage::Settle { state } ==> (accounts.len()
        < REMOVE_LIQUIDITY_ACCOUNTS ==> r == Err::<Step<RemoveLiquidityStage>, AmmError>(
        AmmError::NotEnoughAccountKeys,
    )) && (accounts.len() >= REMOVE_LIQUIDITY_ACCOUNTS ==> match settle_reserves_spec(
        env,
        accounts[16],
        accounts[6].data@,
        accounts[7].data@,
        state,
    ) {
        Ok(t) => match pair_write_spec(1, accounts[1].data@, t) {
            Ok(d) => r matches Ok(Step::Finish { writes }) && writes@.len() == 1
                && writes@[0].account == 1 && writes@[0].data@ == d,
            Err(e) => r == Err::<Step<RemoveLiquidityStage>, AmmError>(e),
        },
        Err(e) => r == Err::<Step<RemoveLiquidityStage>, AmmError>(e),
    }))
}

fn remove_start(env: &Env, accounts: &Vec<AccountView>, liquidity: u64, amount0_min: u64, amount1_min: u64) -> (r: Result<Step<RemoveLiquidityStage>, AmmError>)
    requires
        accounts@.len() >= REMOVE_LIQUIDITY_ACCOUNTS,
    ensures
        remove_liquidity_post(*env, accounts@, liquidity, amount0_min, amount1_min, RemoveLiquidityStage::Start, r),
{
    let programs = SplProgramAccounts {
        token_program: 12,
        ata_program: 13,
        system_program: 14,
        rent_sysvar: 15,
    };
        let payer = &accounts[0];
        let pair = &accounts[1];
        let lp_mint = &accounts[8];
        if !payer.is_signer {
            return Err(AmmError::MissingRequiredSignature);
        }
        if !accounts[14].key.equals(&system_program_id()) {
            return Err(AmmError::IncorrectProgramId);
        }
        if !accounts[12].key.equals(&token_program_id()) {
            return Err(AmmError::IncorrectProgramId);
        }
        if !accounts[13].key.equals(&ata_program_id()) {
            return Err(AmmError::IncorrectProgramId);
        }
        if !accounts[15].key.equals(&rent_sysvar_id()) {
            return Err(AmmError::InvalidAccountData);
        }
        if liquidity == 0 {
            return Err(AmmError::InvalidArgument);
        }
        let (state, bump) = load_pair(&env.program_id, pair)?;
        check_vault_links(&state, &accounts[6].key, &accounts[7].key)?;
        if !lp_mint.key.equals(&state.lp_mint) {
            return Err(AmmError::InvalidArgument);
        }
        if !accounts[2].key.equals(&state.token0_mint) {
            return Err(AmmError::InvalidArgument);
        }
        if !accounts[3].key.equals(&state.token1_mint) {
            return Err(AmmError::InvalidArgument);
        }
        check_ata(&accounts[4].key, &payer.key, &state.token0_mint)?;
        check_ata(&accounts[5].key, &payer.key, &state.token1_mint)?;
        check_ata(&accounts[6].key, &pair.key, &state.token0_mint)?;
        check_ata(&accounts[7].key, &pair.key, &state.token1_mint)?;
        check_ata(&accounts[9].key, &payer.key, &lp_mint.key)?;
        let mut cpis: Vec<Cpi> = Vec::new();
        cpis.push(create_ata_if_needed(0, 4, 0, 2, &programs));
        cpis.push(create_ata_if_needed(0, 5, 0, 3, &programs));
        Ok(Step::Invoke { cpis, next: RemoveLiquidityStage::Fee { state, bump } })
}

fn remove_fee(env: &Env, accounts: &Vec<AccountView>, liquidity: u64, amount0_min: u64, amount1_min: u64, state: PairState, bump: u8) -> (r: Result<Step<RemoveLiquidityStage>, AmmError>)
    requires
        accounts@.len() >= REMOVE_LIQUIDITY_ACCOUNTS,
    ensures
        remove_liquidity_post(*env, accounts@, liquidity, amount0_min, amount1_min, RemoveLiquidityStage::Fee { state, bump }, r),
{
    let programs = SplProgramAccounts {
        token_program: 12,
        ata_program: 13,
        system_program: 14,
        rent_sysvar: 15,
    };
        let payer = &accounts[0];
        let pair = &accounts[1];
        let lp_mint = &accounts[8];
        assert_token_account(accounts[4].data.as_slice(), &payer.key, &state.token0_mint)?;
        assert_token_account(accounts[5].data.as_slice(), &payer.key, &state.token1_mint)?;
        assert_token_account(accounts[6].data.as_slice(), &pair.key, &state.token0_mint)?;
        assert_token_account(accounts[7].data.as_slice(), &pair.key, &state.token1_mint)?;
        assert_token_account(accounts[9].data.as_slice(), &payer.key, &lp_mint.key)?;
        if !lp_mint.owner.equals(&accounts[12].key) {
            return Err(AmmError::IllegalOwner);
        }
        let fee = mint_fee_if_needed(&state, &accounts[10].key, lp_mint.data.as_slice())?;
        if fee > 0 {
            let mut cpis: Vec<Cpi> = Vec::new();
            cpis.push(create_ata_if_needed(0, 11, 10, 8, &programs));
            Ok(Step::Invoke { cpis, next: RemoveLiquidityStage::FeeMint { state, bump, fee } })
        } else {
            remove_withdraw(accounts, liquidity, amount0_min, amount1_min, state, bump)
        }
}

fn remove_fee_mint(env: &Env, accounts: &Vec<AccountView>, liquidity: u64, amount0_min: u64, amount1_min: u64, state: PairState, bump: u8, fee: u128) -> (r: Result<Step<RemoveLiquidityStage>, AmmError>)
    requires
        accounts@.len() >= REMOVE_LIQUIDITY_ACCOUNTS,
    ensures
        remove_liquidity_post(*env, accounts@, liquidity, amount0_min, amount1_min, RemoveLiquidityStage::FeeMint { state, bump, fee }, r),
{
        let amount = check_fee_recipient_lp(
            &accounts[11],
            &accounts[10].key,
            &accounts[8].key,
            fee,
        )?;
        let mut cpis: Vec<Cpi> = Vec::new();
        cpis.push(mint_to_signed(12, 8, 11, 1, amount, pair_signer_seeds(&state, bump)));
        Ok(Step::Invoke { cpis, next: RemoveLiquidityStage::Withdraw { state, bump } })
}

fn remove_settle(env: &Env, accounts: &Vec<AccountView>, liquidity: u64, amount0_min: u64, amount1_min: u64, state: PairState) -> (r: Result<Step<RemoveLiquidityStage>, AmmError>)
    requires
        accounts@.len() >= REMOVE_LIQUIDITY_ACCOUNTS,
    ensures
        remove_liquidity_post(*env, accounts@, liquidity, amount0_min, amount1_min, RemoveLiquidityStage::Settle { state }, r),
{
        let settled = settle_reserves(env, &accounts[16], &accounts[6], &accounts[7], &state)?;
        let write = write_pair_state(1, &accounts[1], &settled)?;
        let mut writes: Vec<AccountWrite> = Vec::new();
        writes.push(write);
        Ok(Step::Finish { writes })
}

/// Burns LP tokens and returns the proportional share of underlying reserves.
///
/// Protocol fees are minted first so the burn amount is valued against the
/// latest effective LP supply.
///
/// Accounts: 0) payer (signer), 1) pair PDA (writable), 2) token0 mint,
/// 3) token1 mint, 4) payer token0 ATA, 5) payer token1 ATA, 6) vault0 ATA,
/// 7) vault1 ATA, 8) LP mint PDA, 9) payer LP ATA, 10) admin (protocol fee
/// recipient), 11) admin LP ATA, 12) token program, 13) ATA program,
/// 14) system program, 15) rent sysvar, 16) clock sysvar.
pub fn remove_liquidity(
    env: &Env,
    accounts: &Vec<AccountView>,
    liquidity: u64,
    amount0_min: u64,
    amount1_min: u64,
    stage: RemoveLiquidityStage,
) -> (r: Result<Step<RemoveLiquidityStage>, AmmError>)
    ensures
        remove_liquidity_post(*env, accounts@, liquidity, amount0_min, amount1_min, stage, r),
{
    if accounts.len() < REMOVE_LIQUIDITY_ACCOUNTS {
        return Err(AmmError::NotEnoughAccountKeys);
    }
    match stage {
        RemoveLiquidityStage::Start => remove_start(env, accounts, liquidity, amount0_min, amount1_min),
        RemoveLiquidityStage::Fee { state, bump } => remove_fee(env, accounts, liquidity, amount0_min, amount1_min, state, bump),
        RemoveLiquidityStage::FeeMint { state, bump, fee } => remove_fee_mint(env, accounts, liquidity, amount0_min, amount1_min, state, bump, fee),
        RemoveLiquidityStage::Withdraw { state, bump } => remove_withdraw(accounts, liquidity, amount0_min, amount1_min, state, bump),
        RemoveLiquidityStage::Settle { state } => remove_settle(env, accounts, liquidity, amount0_min, amount1_min, state),
    }
}

} // verus!
