//! Synchronizing cached reserves with the vault balances.

use vstd::prelude::*;

use super::lib::{
    after, assert_token_account, ata_check_spec, check_ata, check_vault_links, lemma_pair_write_exact,
    load_pair, load_pair_spec, token_account_check_spec, token_balance, token_balance_spec,
    vault_links_spec, write_pair_state, AccountView, AccountWrite, Env,
};
use crate::chain::{clock_sysvar_bytes};
use crate::amm::{update_reserves_and_twap, update_reserves_spec, ClockReading};
use crate::error::AmmError;
use crate::state::{pair_state_bytes, PairState};

verus! {

/// Number of accounts `sync` reads: pair, vault0, vault1, clock sysvar.
pub const SYNC_ACCOUNTS: usize = 4;

/// The pair state after a sync, or why the sync is refused.
pub open spec fn sync_spec(env: Env, accounts: Seq<AccountView>) -> Result<PairState, AmmError> {
    if accounts.len() < SYNC_ACCOUNTS {
        Err(AmmError::NotEnoughAccountKeys)
    } else {
        let pair = accounts[0];
        let vault0 = accounts[1];
        let vault1 = accounts[2];
        let clock = accounts[3];
        match load_pair_spec(env.program_id@, pair) {
            Err(e) => Err(e),
            Ok((s, _bump)) => after(
                vault_links_spec(s, vault0.key@, vault1.key@),
                after(
                    token_account_check_spec(vault0.data@, pair.key@, s.token0_mint@),
                    after(
                        token_account_check_spec(vault1.data@, pair.key@, s.token1_mint@),
                        after(
                            ata_check_spec(vault0.key@, pair.key@, s.token0_mint@),
                            after(
                                ata_check_spec(vault1.key@, pair.key@, s.token1_mint@),
                                match (token_balance_spec(vault0.data@), token_balance_spec(vault1.data@)) {
                                    (Err(e), _) => Err(e),
                                    (Ok(_), Err(e)) => Err(e),
                                    (Ok(balance0), Ok(balance1)) => update_reserves_spec(
                                        s,
                                        clock.key@ == clock_sysvar_bytes(),
                                        clock.clock_timestamp,
                                        balance0,
                                        balance1,
                                    ),
                                },
                            ),
                        ),
                    ),
                ),
            ),
        }
    }
}

/// Synchronizes cached reserves with actual vault balances.
///
/// Accounts: 0) pair PDA (writable), 1) vault0 ATA, 2) vault1 ATA, 3) clock
/// sysvar. On success the pair account is rewritten with the new state.
pub fn sync(env: &Env, accounts: &Vec<AccountView>) -> (r: Result<Vec<AccountWrite>, AmmError>)
    ensures
        match sync_spec(*env, accounts@) {
            Ok(t) => r matches Ok(w) && w@.len() == 1 && w@[0].account == 0 && w@[0].data@
                == pair_state_bytes(t),
            Err(e) => r == Err::<Vec<AccountWrite>, AmmError>(e),
        },
{
    if accounts.len() < SYNC_ACCOUNTS {
        return Err(AmmError::NotEnoughAccountKeys);
    }
    let pair = &accounts[0];
    let vault0 = &accounts[1];
    let vault1 = &accounts[2];
    let clock = &accounts[3];
    let (mut state, _bump) = load_pair(&env.program_id, pair)?;
    check_vault_links(&state, &vault0.key, &vault1.key)?;
    assert_token_account(vault0.data.as_slice(), &pair.key, &state.token0_mint)?;
    assert_token_account(vault1.data.as_slice(), &pair.key, &state.token1_mint)?;
    check_ata(&vault0.key, &pair.key, &state.token0_mint)?;
    check_ata(&vault1.key, &pair.key, &state.token1_mint)?;
    let balance0 = token_balance(vault0.data.as_slice())?;
    let balance1 = token_balance(vault1.data.as_slice())?;
    let reading = ClockReading { key: clock.key, unix_timestamp: clock.clock_timestamp };
    update_reserves_and_twap(&mut state, &reading, balance0, balance1)?;
    proof {
        lemma_pair_write_exact(0, pair.data@, state);
    }
    let write = write_pair_state(0, pair, &state)?;
    let mut writes: Vec<AccountWrite> = Vec::new();
    writes.push(write);
    Ok(writes)
}

} // verus!
