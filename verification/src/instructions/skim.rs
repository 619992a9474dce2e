//! Skimming: handing out whatever the vaults hold above the cached reserves.

use vstd::prelude::*;

use super::lib::{
    after, assert_token_account, ata_check_spec, check_ata, check_vault_links,
    create_ata_if_needed, is_transfer, load_pair, load_pair_spec, pair_signer_seeds,
    pair_signer_seeds_spec, require, token_account_check_spec, token_balance, token_balance_spec,
    transfer_signed, vault_links_spec, AccountView, AccountWrite, Cpi, Env, SplProgramAccounts,
    Step,
};
use crate::amm::excess_balance;
use crate::chain::{ata_program_bytes, ata_program_id, rent_sysvar_bytes, rent_sysvar_id, system_program_bytes, system_program_id, token_program_bytes, token_program_id, unpack_token_account, unpacked_token_account};
use crate::error::AmmError;
use crate::key::Key;
use crate::state::PairState;

verus! {

/// Number of accounts `skim` reads.
pub const SKIM_ACCOUNTS: usize = 13;

/// Where a skim stands.
#[derive(Clone, Copy, Debug)]
pub enum SkimStage {
    /// Nothing has happened yet.
    Start,
    /// The recipient's token accounts exist; the excess is to be sent.
    Transfer { state: PairState, bump: u8 },
    /// The excess has been sent.
    Done,
}

/// Whether `data` already is a token account of `mint` held by `owner`.
pub open spec fn token_account_ready_spec(data: Seq<u8>, owner: Seq<u8>, mint: Seq<u8>) -> bool {
    match unpacked_token_account(data) {
        Some((m, o, _amount)) => o == owner && m == mint,
        None => false,
    }
}

/// Whether an account already is a token account of `mint` held by `owner`.
pub fn token_account_ready(data: &[u8], owner: &Key, mint: &Key) -> (r: bool)
    ensures
        r == token_account_ready_spec(data@, owner@, mint@),
{
    match unpack_token_account(data) {
        Some(acc) => acc.owner.equals(owner) && acc.mint.equals(mint),
        None => false,
    }
}

/// Whether the recipient's token accounts exist, and whether the payer may
/// create the missing ones.
pub open spec fn skim_readiness_spec(
    s: PairState,
    bump: u8,
    payer: AccountView,
    recipient: AccountView,
    recipient_token0: AccountView,
    recipient_token1: AccountView,
) -> Result<(PairState, u8, bool, bool), AmmError> {
    let ready0 = token_account_ready_spec(recipient_token0.data@, recipient.key@, s.token0_mint@);
    let ready1 = token_account_ready_spec(recipient_token1.data@, recipient.key@, s.token1_mint@);
    if (ready0 && ready1) || payer.is_signer {
        Ok((s, bump, ready0, ready1))
    } else {
        Err(AmmError::MissingRequiredSignature)
    }
}

/// The checks made before any account is created; on success the pair state,
/// its bump, and whether each recipient token account already exists.
pub open spec fn skim_start_spec(env: Env, accounts: Seq<AccountView>) -> Result<
    (PairState, u8, bool, bool),
    AmmError,
> {
    if accounts.len() < SKIM_ACCOUNTS {
        Err(AmmError::NotEnoughAccountKeys)
    } else {
        let payer = accounts[0];
        let recipient = accounts[1];
        let pair = accounts[2];
        let token0_mint = accounts[3];
        let token1_mint = accounts[4];
        let recipient_token0 = accounts[5];
        let recipient_token1 = accounts[6];
        let vault0 = accounts[7];
        let vault1 = accounts[8];
        after(
            require(accounts[11].key@ == system_program_bytes(), AmmError::IncorrectProgramId),
            after(
                require(accounts[9].key@ == token_program_bytes(), AmmError::IncorrectProgramId),
                after(
                    require(accounts[10].key@ == ata_program_bytes(), AmmError::IncorrectProgramId),
                    after(
                        require(accounts[12].key@ == rent_sysvar_bytes(), AmmError::InvalidAccountData),
                        match load_pair_spec(env.program_id@, pair) {
                            Err(e) => Err(e),
                            Ok((s, bump)) => after(
                                vault_links_spec(s, vault0.key@, vault1.key@),
                                after(
                                    require(token0_mint.key@ == s.token0_mint@, AmmError::InvalidArgument),
                                    after(
                                        require(token1_mint.key@ == s.token1_mint@, AmmError::InvalidArgument),
                                        after(
                                            ata_check_spec(recipient_token0.key@, recipient.key@, s.token0_mint@),
                                            after(
                                                ata_check_spec(recipient_token1.key@, recipient.key@, s.token1_mint@),
                                                after(
                                                    ata_check_spec(vault0.key@, pair.key@, s.token0_mint@),
                                                    after(
                                                        ata_check_spec(vault1.key@, pair.key@, s.token1_mint@),
                                                        skim_readiness_spec(
                                                            s,
                                                            bump,
                                                            payer,
                                                            recipient,
                                                            recipient_token0,
                                                            recipient_token1,
                                                        ),
                                                    ),
                                                ),
                                            ),
                                        ),
                                    ),
                                ),
                            ),
                        },
                    ),
                ),
            ),
        )
    }
}

/// The creation of the recipient's missing token accounts, token0 first.
pub open spec fn skim_create_cpis(cpis: Seq<Cpi>, ready0: bool, ready1: bool) -> bool {
    let n0: int = if !ready0 { 1 } else { 0 };
    let n1: int = if !ready1 { 1 } else { 0 };
    &&& cpis.len() == n0 + n1
    &&& !ready0 ==> cpis[0] == (Cpi::CreateAta {
        payer: 0,
        ata: 5,
        owner: 1,
        mint: 3,
        system_program: 11,
        token_program: 9,
        ata_program: 10,
        rent_sysvar: 12,
    })
    &&& !ready1 ==> cpis[n0] == (Cpi::CreateAta {
        payer: 0,
        ata: 6,
        owner: 1,
        mint: 4,
        system_program: 11,
        token_program: 9,
        ata_program: 10,
        rent_sysvar: 12,
    })
}

/// The excess of each vault over its reserve, once the token accounts are checked.
pub open spec fn skim_transfer_spec(accounts: Seq<AccountView>, s: PairState) -> Result<(u64, u64), AmmError> {
    if accounts.len() < SKIM_ACCOUNTS {
        Err(AmmError::NotEnoughAccountKeys)
    } else {
        let recipient = accounts[1];
        let pair = accounts[2];
        after(
            token_account_check_spec(accounts[5].data@, recipient.key@, s.token0_mint@),
            after(
                token_account_check_spec(accounts[6].data@, recipient.key@, s.token1_mint@),
                after(
                    token_account_check_spec(accounts[7].data@, pair.key@, s.token0_mint@),
                    after(
                        token_account_check_spec(accounts[8].data@, pair.key@, s.token1_mint@),
                        match (token_balance_spec(accounts[7].data@), token_balance_spec(accounts[8].data@)) {
                            (Err(e), _) => Err(e),
                            (Ok(_), Err(e)) => Err(e),
                            (Ok(balance0), Ok(balance1)) => Ok(
                                (
                                    (if balance0 > s.reserve0 {
                                        balance0 - s.reserve0
                                    } else {
                                        0
                                    }) as u64,
                                    (if balance1 > s.reserve1 {
                                        balance1 - s.reserve1
                                    } else {
                                        0
                                    }) as u64,
                                ),
                            ),
                        },
                    ),
                ),
            ),
        )
    }
}

/// Skimming takes from each vault exactly what it holds above its reserve: a
/// vault at or above its reserve is left holding the reserve, one below it
/// gives nothing.
pub proof fn lemma_skim_leaves_reserves(accounts: Seq<AccountView>, s: PairState, excess0: u64, excess1: u64)
    requires
        skim_transfer_spec(accounts, s) == Ok::<(u64, u64), AmmError>((excess0, excess1)),
    ensures
        token_balance_spec(accounts[7].data@) matches Ok(balance0) && excess0 <= balance0 && (
        balance0 >= s.reserve0 ==> balance0 - excess0 == s.reserve0) && (balance0 < s.reserve0
            ==> excess0 == 0),
        token_balance_spec(accounts[8].data@) matches Ok(balance1) && excess1 <= balance1 && (
        balance1 >= s.reserve1 ==> balance1 - excess1 == s.reserve1) && (balance1 < s.reserve1
            ==> excess1 == 0),
{
}

/// A second skim right after a first asks for nothing: once the first skim's
/// transfers have left each vault lower by its excess, and with the pair
/// state as it was (a skim never writes it), the next skim's transfer step
/// asks for no transfer and goes on to finish without a write.
pub proof fn lemma_second_skim_asks_nothing(
    env: Env,
    first: Seq<AccountView>,
    second: Seq<AccountView>,
    s: PairState,
    bump: u8,
    balance0: u64,
    balance1: u64,
    excess0: u64,
    excess1: u64,
    r: Result<Step<SkimStage>, AmmError>,
)
    requires
        skim_transfer_spec(first, s) == Ok::<(u64, u64), AmmError>((excess0, excess1)),
        token_balance_spec(first[7].data@) == Ok::<u64, AmmError>(balance0),
        token_balance_spec(first[8].data@) == Ok::<u64, AmmError>(balance1),
        token_balance_spec(second[7].data@) == Ok::<u64, AmmError>((balance0 - excess0) as u64),
        token_balance_spec(second[8].data@) == Ok::<u64, AmmError>((balance1 - excess1) as u64),
        skim_post(env, second, SkimStage::Transfer { state: s, bump }, r),
        r is Ok,
    ensures
        r matches Ok(Step::Invoke { cpis, next }) && cpis@.len() == 0 && next == SkimStage::Done,
{
    lemma_skim_leaves_reserves(first, s, excess0, excess1);
    match skim_transfer_spec(second, s) {
        Ok((e0, e1)) => {
            assert(e0 == 0 && e1 == 0);
        },
        Err(_) => {},
    }
}

/// The rule of a skim's transfer step: for each token on its own, whatever the
/// other token holds, a vault above its reserve sends exactly its excess to
/// the recipient's account of that token, signed by the pair, and a vault at
/// or below its reserve sends nothing; nothing else is asked for.
pub proof fn lemma_skim_sends_each_excess(
    env: Env,
    accounts: Seq<AccountView>,
    s: PairState,
    bump: u8,
    r: Result<Step<SkimStage>, AmmError>,
)
    requires
        skim_post(env, accounts, SkimStage::Transfer { state: s, bump }, r),
        r is Ok,
    ensures
        match (r, token_balance_spec(accounts[7].data@), token_balance_spec(accounts[8].data@)) {
            (Ok(Step::Invoke { cpis, next }), Ok(balance0), Ok(balance1)) => {
                let seeds = pair_signer_seeds_spec(s, bump);
                &&& next == SkimStage::Done
                &&& balance0 > s.reserve0 ==> exists|i: int|
                    0 <= i < cpis@.len() && #[trigger] is_transfer(
                        cpis@[i],
                        9,
                        7,
                        5,
                        2,
                        (balance0 - s.reserve0) as u64,
                        seeds,
                    )
                &&& balance1 > s.reserve1 ==> exists|i: int|
                    0 <= i < cpis@.len() && #[trigger] is_transfer(
                        cpis@[i],
                        9,
                        8,
                        6,
                        2,
                        (balance1 - s.reserve1) as u64,
                        seeds,
                    )
                &&& cpis@.len() == (if balance0 > s.reserve0 {
                    1int
                } else {
                    0int
                }) + (if balance1 > s.reserve1 {
                    1int
                } else {
                    0int
                })
                &&& forall|i: int|
                    0 <= i < cpis@.len() ==> is_transfer(
                        #[trigger] cpis@[i],
                        9,
                        7,
                        5,
                        2,
                        (balance0 - s.reserve0) as u64,
                        seeds,
                    ) || is_transfer(cpis@[i], 9, 8, 6, 2, (balance1 - s.reserve1) as u64, seeds)
            },
            _ => false,
        },
{
    let (e0, e1) = skim_transfer_spec(accounts, s)->Ok_0;
    let cpis = r->Ok_0->Invoke_cpis;
    let seeds = pair_signer_seeds_spec(s, bump);
    if e0 > 0 {
        assert(is_transfer(cpis@[0], 9, 7, 5, 2, e0, seeds));
    }
    if e1 > 0 {
        let n0: int = if e0 > 0 { 1 } else { 0 };
        assert(is_transfer(cpis@[n0], 9, 8, 6, 2, e1, seeds));
    }
}

/// The transfers of the excess from the vaults to the recipient, token0 first,
/// each only when positive, signed by the pair PDA.
pub open spec fn skim_transfer_cpis(cpis: Seq<Cpi>, excess0: u64, excess1: u64, seeds: Seq<Seq<u8>>) -> bool {
    let n0: int = if excess0 > 0 { 1 } else { 0 };
    let n1: int = if excess1 > 0 { 1 } else { 0 };
    &&& cpis.len() == n0 + n1
    &&& excess0 > 0 ==> is_transfer(cpis[0], 9, 7, 5, 2, excess0, seeds)
    &&& excess1 > 0 ==> is_transfer(cpis[n0], 9, 8, 6, 2, excess1, seeds)
}

/// What a skim step yields.
pub open spec fn skim_post(env: Env, accounts: Seq<AccountView>, stage: SkimStage, r: Result<Step<SkimStage>, AmmError>) -> bool {
    &&& (stage is Start ==> match skim_start_spec(env, accounts) {
        Ok((s, bump, ready0, ready1)) => r matches Ok(Step::Invoke { cpis, next }) && next == (
        SkimStage::Transfer { state: s, bump }) && skim_create_cpis(cpis@, ready0, ready1),
        Err(e) => r == Err::<Step<SkimStage>, AmmError>(e),
    })
    &&& (stage matches SkimStage::Transfer { state, bump } ==> match skim_transfer_spec(
        accounts,
        state,
    ) {
        Ok((excess0, excess1)) => r matches Ok(Step::Invoke { cpis, next }) && next
            == SkimStage::Done && skim_transfer_cpis(
            cpis@,
            excess0,
            excess1,
            pair_signer_seeds_spec(state, bump),
        ),
        Err(e) => r == Err::<Step<SkimStage>, AmmError>(e),
    })
    &&& (stage is Done ==> (r matches Ok(Step::Finish { writes }) && writes@.len() == 0))
}

/// Transfers any excess vault balances above cached reserves to the provided
/// recipient token accounts without updating reserves.
///
/// Accounts: 0) payer (funds recipient ATA creation if missing), 1) recipient,
/// 2) pair PDA, 3) token0 mint, 4) token1 mint, 5) recipient token0 ATA,
/// 6) recipient token1 ATA, 7) vault0 ATA, 8) vault1 ATA, 9) token program,
/// 10) ATA program, 11) system program, 12) rent sysvar.
pub fn skim(env: &Env, accounts: &Vec<AccountView>, stage: SkimStage) -> (r: Result<
    Step<SkimStage>,
    AmmError,
>)
    ensures
        skim_post(*env, accounts@, stage, r),
{
    match stage {
        SkimStage::Start => {
            if accounts.len() < SKIM_ACCOUNTS {
                return Err(AmmError::NotEnoughAccountKeys);
            }
            let payer = &accounts[0];
            let recipient = &accounts[1];
            let pair = &accounts[2];
            let recipient_token0 = &accounts[5];
            let recipient_token1 = &accounts[6];
            let vault0 = &accounts[7];
            let vault1 = &accounts[8];
            if !accounts[11].key.equals(&system_program_id()) {
                return Err(AmmError::IncorrectProgramId);
            }
            if !accounts[9].key.equals(&token_program_id()) {
                return Err(AmmError::IncorrectProgramId);
            }
            if !accounts[10].key.equals(&ata_program_id()) {
                return Err(AmmError::IncorrectProgramId);
            }
            if !accounts[12].key.equals(&rent_sysvar_id()) {
                return Err(AmmError::InvalidAccountData);
            }
            let (state, bump) = load_pair(&env.program_id, pair)?;
            check_vault_links(&state, &vault0.key, &vault1.key)?;
            if !accounts[3].key.equals(&state.token0_mint) {
                return Err(AmmError::InvalidArgument);
            }
            if !accounts[4].key.equals(&state.token1_mint) {
                return Err(AmmError::InvalidArgument);
            }
            check_ata(&recipient_token0.key, &recipient.key, &state.token0_mint)?;
            check_ata(&recipient_token1.key, &recipient.key, &state.token1_mint)?;
            check_ata(&vault0.key, &pair.key, &state.token0_mint)?;
            check_ata(&vault1.key, &pair.key, &state.token1_mint)?;
            let ready0 = token_account_ready(
                recipient_token0.data.as_slice(),
                &recipient.key,
                &state.token0_mint,
            );
            let ready1 = token_account_ready(
                recipient_token1.data.as_slice(),
                &recipient.key,
                &state.token1_mint,
            );
            if (!ready0 || !ready1) && !payer.is_signer {
                return Err(AmmError::MissingRequiredSignature);
            }
            let programs = SplProgramAccounts {
                token_program: 9,
                ata_program: 10,
                system_program: 11,
                rent_sysvar: 12,
            };
            let mut cpis: Vec<Cpi> = Vec::new();
            if !ready0 {
                cpis.push(create_ata_if_needed(0, 5, 1, 3, &programs));
            }
            if !ready1 {
                cpis.push(create_ata_if_needed(0, 6, 1, 4, &programs));
            }
            Ok(Step::Invoke { cpis, next: SkimStage::Transfer { state, bump } })
        },
        SkimStage::Transfer { state, bump } => {
            if accounts.len() < SKIM_ACCOUNTS {
                return Err(AmmError::NotEnoughAccountKeys);
            }
            let recipient = &accounts[1];
            let pair = &accounts[2];
            assert_token_account(accounts[5].data.as_slice(), &recipient.key, &state.token0_mint)?;
            assert_token_account(accounts[6].data.as_slice(), &recipient.key, &state.token1_mint)?;
            assert_token_account(accounts[7].data.as_slice(), &pair.key, &state.token0_mint)?;
            assert_token_account(accounts[8].data.as_slice(), &pair.key, &state.token1_mint)?;
            let balance0 = token_balance(accounts[7].data.as_slice())?;
            let balance1 = token_balance(accounts[8].data.as_slice())?;
            let excess0 = excess_balance(balance0, state.reserve0);
            let excess1 = excess_balance(balance1, state.reserve1);
            let mut cpis: Vec<Cpi> = Vec::new();
            if excess0 > 0 {
                cpis.push(transfer_signed(9, 7, 5, 2, excess0, pair_signer_seeds(&state, bump)));
            }
            if excess1 > 0 {
                cpis.push(transfer_signed(9, 8, 6, 2, excess1, pair_signer_seeds(&state, bump)));
            }
            Ok(Step::Invoke { cpis, next: SkimStage::Done })
        },
        SkimStage::Done => {
            let writes: Vec<AccountWrite> = Vec::new();
            Ok(Step::Finish { writes })
        },
    }
}

} // verus!
