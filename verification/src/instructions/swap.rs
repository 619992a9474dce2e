//! Swapping: the pool sends the requested output first and infers the input
//! from the resulting vault balances.

use vstd::prelude::*;

use super::lib::{
    after, assert_token_account, ata_check_spec, check_ata, check_vault_links, is_transfer,
    load_pair, load_pair_spec, pair_signer_seeds, pair_signer_seeds_spec, pair_write_spec, require,
    token_account_check_spec, token_balance, token_balance_spec, transfer_signed, vault_links_spec,
    write_pair_state, AccountView, AccountWrite, Cpi, Env, Step,
};
use crate::chain::{token_program_bytes, clock_sysvar_bytes, token_program_id};
use crate::amm::{
    check_swap_request, check_swap_settlement, swap_request_spec, swap_settle_spec,
    update_reserves_and_twap, update_reserves_spec, ClockReading,
};
use crate::error::AmmError;
use crate::state::PairState;

verus! {

/// Number of accounts `swap` reads: user, pair, user token0 and token1
/// accounts, vault0, vault1, token program, clock sysvar.
pub const SWAP_ACCOUNTS: usize = 8;

/// Where a swap stands.
#[derive(Clone, Copy, Debug)]
pub enum SwapStage {
    /// Nothing has happened yet.
    Start,
    /// The output has been sent; the pair state is as it was loaded.
    Settle { state: PairState },
}

/// The checks made before any token moves; on success the pair state and bump.
pub open spec fn swap_start_spec(env: Env, accounts: Seq<AccountView>, amount0_out: u64, amount1_out: u64) -> Result<
    (PairState, u8),
    AmmError,
> {
    if accounts.len() < SWAP_ACCOUNTS {
        Err(AmmError::NotEnoughAccountKeys)
    } else {
        let user = accounts[0];
        let pair = accounts[1];
        let user_token0 = accounts[2];
        let user_token1 = accounts[3];
        let vault0 = accounts[4];
        let vault1 = accounts[5];
        let token_program = accounts[6];
        after(
            require(user.is_signer, AmmError::MissingRequiredSignature),
            after(
                require(token_program.key@ == token_program_bytes(), AmmError::IncorrectProgramId),
                after(
                    require(amount0_out != 0 || amount1_out != 0, AmmError::InvalidArgument),
                    match load_pair_spec(env.program_id@, pair) {
                        Err(e) => Err(e),
                        Ok((s, bump)) => after(
                            vault_links_spec(s, vault0.key@, vault1.key@),
                            after(
                                token_account_check_spec(user_token0.data@, user.key@, s.token0_mint@),
                                after(
                                    token_account_check_spec(user_token1.data@, user.key@, s.token1_mint@),
                                    after(
                                        token_account_check_spec(vault0.data@, pair.key@, s.token0_mint@),
                                        after(
                                            token_account_check_spec(vault1.data@, pair.key@, s.token1_mint@),
                                            after(
                                                ata_check_spec(user_token0.key@, user.key@, s.token0_mint@),
                                                after(
                                                    ata_check_spec(user_token1.key@, user.key@, s.token1_mint@),
                                                    after(
                                                        ata_check_spec(vault0.key@, pair.key@, s.token0_mint@),
                                                        after(
                                                            ata_check_spec(vault1.key@, pair.key@, s.token1_mint@),
                                                            after(
                                                                swap_request_spec(
                                                                    s.reserve0 as int,
                                                                    s.reserve1 as int,
                                                                    amount0_out as int,
                                                                    amount1_out as int,
                                                                ),
                                                                Ok((s, bump)),
                                                            ),
                                                        ),
                                                    ),
                                                ),
                                            ),
                                        ),
                                    ),
                                ),
                            ),
                        ),
                    },
                ),
            ),
        )
    }
}

/// The transfers of the output: vault0 to the user's token0 account, then
/// vault1 to the user's token1 account, each only when its amount is positive,
/// signed by the pair PDA.
pub open spec fn swap_out_cpis(cpis: Seq<Cpi>, amount0_out: u64, amount1_out: u64, seeds: Seq<Seq<u8>>) -> bool {
    let n0: int = if amount0_out > 0 { 1 } else { 0 };
    let n1: int = if amount1_out > 0 { 1 } else { 0 };
    &&& cpis.len() == n0 + n1
    &&& amount0_out > 0 ==> is_transfer(cpis[0], 6, 4, 2, 1, amount0_out, seeds)
    &&& amount1_out > 0 ==> is_transfer(cpis[n0], 6, 5, 3, 1, amount1_out, seeds)
}

/// The pair state after the swap settles, or why it is refused.
pub open spec fn swap_settle_stage_spec(
    env: Env,
    accounts: Seq<AccountView>,
    s: PairState,
    amount0_out: u64,
    amount1_out: u64,
) -> Result<PairState, AmmError> {
    if accounts.len() < SWAP_ACCOUNTS {
        Err(AmmError::NotEnoughAccountKeys)
    } else {
        let clock = accounts[7];
        after(
            swap_request_spec(s.reserve0 as int, s.reserve1 as int, amount0_out as int, amount1_out as int),
            match (token_balance_spec(accounts[4].data@), token_balance_spec(accounts[5].data@)) {
                (Err(e), _) => Err(e),
                (Ok(_), Err(e)) => Err(e),
                (Ok(balance0), Ok(balance1)) => after(
                    swap_settle_spec(
                        s.reserve0 as int,
                        s.reserve1 as int,
                        amount0_out as int,
                        amount1_out as int,
                        balance0 as int,
                        balance1 as int,
                    ),
                    update_reserves_spec(
                        s,
                        clock.key@ == clock_sysvar_bytes(),
                        clock.clock_timestamp,
                        balance0,
                        balance1,
                    ),
                ),
            },
        )
    }
}

/// What a swap step yields.
pub open spec fn swap_post(env: Env, accounts: Seq<AccountView>, amount0_out: u64, amount1_out: u64, stage: SwapStage, r: Result<Step<SwapStage>, AmmError>) -> bool {
    &&& (stage is Start ==> match swap_start_spec(env, accounts, amount0_out, amount1_out) {
        Ok((s, bump)) => r matches Ok(Step::Invoke { cpis, next }) && next == (SwapStage::Settle {
            state: s,
        }) && swap_out_cpis(cpis@, amount0_out, amount1_out, pair_signer_seeds_spec(s, bump)),
        Err(e) => r == Err::<Step<SwapStage>, AmmError>(e),
    })
    &&& (stage matches SwapStage::Settle { state } ==> match swap_settle_stage_spec(
        env,
        accounts,
        state,
        amount0_out,
        amount1_out,
    ) {
        Ok(t) => match pair_write_spec(1, accounts[1].data@, t) {
            Ok(d) => r matches Ok(Step::Finish { writes }) && writes@.len() == 1
                && writes@[0].account == 1 && writes@[0].data@ == d,
            Err(e) => r == Err::<Step<SwapStage>, AmmError>(e),
        },
        Err(e) => r == Err::<Step<SwapStage>, AmmError>(e),
    })
}

/// Executes a swap by sending tokens out first and inferring tokens in from
/// the resulting vault balances.
///
/// This mirrors the classic constant-product flow where the caller can
/// transfer input tokens before or during the same transaction and the program
/// validates the final invariant from observed balances.
///
/// Accounts: 0) user (signer), 1) pair PDA (writable), 2) user token0 ATA,
/// 3) user token1 ATA, 4) vault0 ATA, 5) vault1 ATA, 6) token program,
/// 7) clock sysvar.
pub fn swap(
    env: &Env,
    accounts: &Vec<AccountView>,
    amount0_out: u64,
    amount1_out: u64,
    stage: SwapStage,
) -> (r: Result<Step<SwapStage>, AmmError>)
    ensures
        swap_post(*env, accounts@, amount0_out, amount1_out, stage, r),
{
    if accounts.len() < SWAP_ACCOUNTS {
        return Err(AmmError::NotEnoughAccountKeys);
    }
    match stage {
        SwapStage::Start => {
            let user = &accounts[0];
            let pair = &accounts[1];
            let user_token0 = &accounts[2];
            let user_token1 = &accounts[3];
            let vault0 = &accounts[4];
            let vault1 = &accounts[5];
            let token_program = &accounts[6];
            if !user.is_signer {
                return Err(AmmError::MissingRequiredSignature);
            }
            if !token_program.key.equals(&token_program_id()) {
                return Err(AmmError::IncorrectProgramId);
            }
            if amount0_out == 0 && amount1_out == 0 {
                return Err(AmmError::InvalidArgument);
            }
            let (state, bump) = load_pair(&env.program_id, pair)?;
            check_vault_links(&state, &vault0.key, &vault1.key)?;
            assert_token_account(user_token0.data.as_slice(), &user.key, &state.token0_mint)?;
            assert_token_account(user_token1.data.as_slice(), &user.key, &state.token1_mint)?;
            assert_token_account(vault0.data.as_slice(), &pair.key, &state.token0_mint)?;
            assert_token_account(vault1.data.as_slice(), &pair.key, &state.token1_mint)?;
            check_ata(&user_token0.key, &user.key, &state.token0_mint)?;
            check_ata(&user_token1.key, &user.key, &state.token1_mint)?;
            check_ata(&vault0.key, &pair.key, &state.token0_mint)?;
            check_ata(&vault1.key, &pair.key, &state.token1_mint)?;
            check_swap_request(state.reserve0, state.reserve1, amount0_out, amount1_out)?;
            let mut cpis: Vec<Cpi> = Vec::new();
            if amount0_out > 0 {
                cpis.push(transfer_signed(6, 4, 2, 1, amount0_out, pair_signer_seeds(&state, bump)));
            }
            if amount1_out > 0 {
                cpis.push(transfer_signed(6, 5, 3, 1, amount1_out, pair_signer_seeds(&state, bump)));
            }
            Ok(Step::Invoke { cpis, next: SwapStage::Settle { state } })
        },
        SwapStage::Settle { state } => {
            let mut state = state;
            check_swap_request(state.reserve0, state.reserve1, amount0_out, amount1_out)?;
            let balance0 = token_balance(accounts[4].data.as_slice())?;
            let balance1 = token_balance(accounts[5].data.as_slice())?;
            check_swap_settlement(
                state.reserve0,
                state.reserve1,
                amount0_out,
                amount1_out,
                balance0,
                balance1,
            )?;
            let clock = &accounts[7];
            let reading = ClockReading { key: clock.key, unix_timestamp: clock.clock_timestamp };
            update_reserves_and_twap(&mut state, &reading, balance0, balance1)?;
            let write = write_pair_state(1, &accounts[1], &state)?;
            let mut writes: Vec<AccountWrite> = Vec::new();
            writes.push(write);
            Ok(Step::Finish { writes })
        },
    }
}

} // verus!
