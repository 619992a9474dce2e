//! Creating a pair: its state account, its two vaults and its LP mint.

use vstd::prelude::*;

use super::lib::{
    after, assert_token_account, ata_address_spec, claim_plan_ok, create_ata_if_needed,
    create_mint_account_signed, create_or_claim_pda_account, derive_factory_pda,
    derive_lp_mint_pda, derive_pair_pda, factory_seeds_spec, get_ata, init_mint,
    lemma_bytes_deep_view, lp_mint_seeds_spec, mint_supply, mint_supply_spec, overwrite_prefix,
    overwrite_spec, pair_seeds_spec, require, token_account_check_spec, AccountView, AccountWrite,
    Cpi, Env, SplProgramAccounts, Step,
};
use crate::chain::{ata_program_bytes, ata_program_id, found_program_address, mint_account_len, mint_account_size, rent_sysvar_bytes, rent_sysvar_id, system_program_bytes, system_program_id, token_program_bytes, token_program_id};
use crate::constants::{
    lp_mint_seed_prefix, pair_seed_prefix, program_admin_authority, program_admin_bytes,
    LP_DECIMALS,
};
use crate::error::AmmError;
use crate::key::{bytes_lt, Key};
use crate::state::{
    factory_state_bytes, factory_state_from_bytes, pair_state_bytes, FactoryState, PairState,
};

verus! {

/// Number of accounts `create_pair` reads.
pub const CREATE_PAIR_ACCOUNTS: usize = 12;

/// What `create_pair` settles before creating anything: the canonical order
/// of the mints and of the vaults, the pair PDA and the bumps, and the
/// factory state to update.
#[derive(Clone, Copy, Debug)]
pub struct PairPlan {
    /// Whether mint B sorts before mint A (so token0 is mint B).
    pub mints_swapped: bool,
    /// Whether vault B is the token0 vault.
    pub vaults_swapped: bool,
    /// The pair PDA.
    pub pair: Key,
    pub pair_bump: u8,
    pub lp_bump: u8,
    pub factory: FactoryState,
}

/// Where the pair creation stands.
#[derive(Clone, Copy, Debug)]
pub enum CreatePairStage {
    /// Nothing has happened yet.
    Start,
    /// The pair account and the vaults exist; the LP mint is to be created.
    Mint { plan: PairPlan },
    /// Everything exists; the pair and factory states are to be written.
    Write { plan: PairPlan },
}

/// The canonical order of two mints: the one with the smaller bytes first.
/// Returns the positions of token0 and token1 among the accounts 3 and 4.
pub open spec fn canonical_mints(mint_a: Seq<u8>, mint_b: Seq<u8>) -> bool {
    !bytes_lt(mint_a, mint_b)
}

/// Position of the token0 mint account.
pub open spec fn mint0_index(mints_swapped: bool) -> int {
    if mints_swapped {
        4
    } else {
        3
    }
}

/// Position of the token1 mint account.
pub open spec fn mint1_index(mints_swapped: bool) -> int {
    if mints_swapped {
        3
    } else {
        4
    }
}

/// Position of the token0 vault account.
pub open spec fn vault0_index(vaults_swapped: bool) -> int {
    if vaults_swapped {
        6
    } else {
        5
    }
}

/// Position of the token1 vault account.
pub open spec fn vault1_index(vaults_swapped: bool) -> int {
    if vaults_swapped {
        5
    } else {
        6
    }
}

/// The pair PDA, its bump, the LP mint bump and the vault order, once the
/// mints are sorted; or why the creation is refused.
pub open spec fn create_pair_derive_spec(
    env: Env,
    accounts: Seq<AccountView>,
    factory_key: Seq<u8>,
    fs: FactoryState,
) -> Result<(bool, bool, Seq<u8>, u8, u8, FactoryState, u64), AmmError> {
    let swapped = canonical_mints(accounts[3].key@, accounts[4].key@);
    let mint0 = accounts[mint0_index(swapped)].key@;
    let mint1 = accounts[mint1_index(swapped)].key@;
    match found_program_address(pair_seeds_spec(factory_key, mint0, mint1), env.program_id@) {
        None => Err(AmmError::InvalidSeeds),
        Some((expected_pair, pair_bump)) => after(
            require(accounts[2].key@ == expected_pair, AmmError::InvalidSeeds),
            match (ata_address_spec(expected_pair, mint0), ata_address_spec(expected_pair, mint1)) {
                (None, _) => Err(AmmError::InvalidSeeds),
                (Some(_), None) => Err(AmmError::InvalidSeeds),
                (Some(ev0), Some(ev1)) => {
                    let vault_a = accounts[5].key@;
                    let vault_b = accounts[6].key@;
                    if !((vault_a == ev0 && vault_b == ev1) || (vault_a == ev1 && vault_b == ev0)) {
                        Err(AmmError::InvalidArgument)
                    } else {
                        let vaults_swapped = !(vault_a == ev0 && vault_b == ev1);
                        match found_program_address(lp_mint_seeds_spec(expected_pair), env.program_id@) {
                            None => Err(AmmError::InvalidSeeds),
                            Some((expected_lp, lp_bump)) => after(
                                require(accounts[7].key@ == expected_lp, AmmError::InvalidSeeds),
                                match env.rent {
                                    None => Err(AmmError::UnsupportedSysvar),
                                    Some(rent) => after(
                                        require(
                                            !(accounts[2].lamports != 0 && (accounts[2].owner@
                                                != system_program_bytes()
                                                || accounts[2].data@.len() != 0)),
                                            AmmError::AccountAlreadyInitialized,
                                        ),
                                        Ok(
                                            (
                                                swapped,
                                                vaults_swapped,
                                                expected_pair,
                                                pair_bump,
                                                lp_bump,
                                                fs,
                                                rent.pair,
                                            ),
                                        ),
                                    ),
                                },
                            ),
                        }
                    }
                },
            },
        ),
    }
}

/// The checks made before anything is created.
pub open spec fn create_pair_start_spec(env: Env, accounts: Seq<AccountView>) -> Result<
    (bool, bool, Seq<u8>, u8, u8, FactoryState, u64),
    AmmError,
> {
    if accounts.len() < CREATE_PAIR_ACCOUNTS {
        Err(AmmError::NotEnoughAccountKeys)
    } else {
        let payer = accounts[0];
        let factory = accounts[1];
        after(
            require(payer.is_signer, AmmError::MissingRequiredSignature),
            after(
                require(payer.key@ == program_admin_bytes(), AmmError::IllegalOwner),
                after(
                    require(accounts[10].key@ == system_program_bytes(), AmmError::IncorrectProgramId),
                    after(
                        require(accounts[8].key@ == token_program_bytes(), AmmError::IncorrectProgramId),
                        after(
                            require(accounts[9].key@ == ata_program_bytes(), AmmError::IncorrectProgramId),
                            after(
                                require(accounts[11].key@ == rent_sysvar_bytes(), AmmError::InvalidAccountData),
                                after(
                                    require(accounts[3].key@ != accounts[4].key@, AmmError::InvalidArgument),
                                    match found_program_address(factory_seeds_spec(), env.program_id@) {
                                        None => Err(AmmError::InvalidSeeds),
                                        Some((expected_factory, _)) => after(
                                            require(factory.key@ == expected_factory, AmmError::InvalidSeeds),
                                            after(
                                                require(factory.owner@ == env.program_id@, AmmError::IllegalOwner),
                                                match factory_state_from_bytes(factory.data@) {
                                                    None => Err(AmmError::InvalidAccountData),
                                                    Some(fs) => create_pair_mints_spec(env, accounts, expected_factory, fs),
                                                },
                                            ),
                                        ),
                                    },
                                ),
                            ),
                        ),
                    ),
                ),
            ),
        )
    }
}

/// The factory and mint checks of a pair creation.
pub open spec fn create_pair_mints_spec(
    env: Env,
    accounts: Seq<AccountView>,
    expected_factory: Seq<u8>,
    fs: FactoryState,
) -> Result<(bool, bool, Seq<u8>, u8, u8, FactoryState, u64), AmmError> {
    after(
        require(fs.is_initialized, AmmError::UninitializedAccount),
        after(
            require(accounts[3].owner@ == accounts[8].key@, AmmError::IllegalOwner),
            after(
                require(accounts[4].owner@ == accounts[8].key@, AmmError::IllegalOwner),
                after(
                    require(mint_supply_spec(accounts[3].data@) is Ok, AmmError::InvalidAccountData),
                    after(
                        require(mint_supply_spec(accounts[4].data@) is Ok, AmmError::InvalidAccountData),
                        create_pair_derive_spec(env, accounts, expected_factory, fs),
                    ),
                ),
            ),
        ),
    )
}

/// The instruction's accounts with the two mint accounts exchanged.
pub open spec fn exchange_mints(accounts: Seq<AccountView>) -> Seq<AccountView> {
    accounts.update(3, accounts[4]).update(4, accounts[3])
}

/// The order in which the two mints are given does not matter: with the
/// mint accounts exchanged, creating the pair is refused with the same error,
/// or goes ahead with the same pair address, bumps, vault order and factory
/// state, the mints sorted the same way, token0 before token1.
pub proof fn lemma_mint_order_irrelevant(env: Env, accounts: Seq<AccountView>)
    requires
        accounts.len() >= 5,
    ensures
        match (create_pair_start_spec(env, accounts), create_pair_start_spec(env, exchange_mints(accounts))) {
            (Ok((s1, v1, p1, b1, l1, f1, x1)), Ok((s2, v2, p2, b2, l2, f2, x2))) => {
                &&& s1 != s2
                &&& exchange_mints(accounts)[mint0_index(s2)].key@ == accounts[mint0_index(s1)].key@
                &&& exchange_mints(accounts)[mint1_index(s2)].key@ == accounts[mint1_index(s1)].key@
                &&& bytes_lt(accounts[mint0_index(s1)].key@, accounts[mint1_index(s1)].key@)
                &&& v1 == v2 && p1 == p2 && b1 == b2 && l1 == l2 && f1 == f2 && x1 == x2
            },
            (Err(e1), Err(e2)) => e1 == e2,
            _ => false,
        },
{
    let x = exchange_mints(accounts);
    assert(x.len() == accounts.len());
    assert(x[3] == accounts[4]);
    assert(x[4] == accounts[3]);
    assert forall|i: int| 0 <= i < accounts.len() && i != 3 && i != 4 implies x[i] == accounts[i] by {}
    if accounts.len() >= CREATE_PAIR_ACCOUNTS {
        crate::key::lemma_bytes_lt_total(accounts[3].key@, accounts[4].key@);
        if accounts[3].key@ != accounts[4].key@ {
            if let Some((expected_factory, _)) = found_program_address(factory_seeds_spec(), env.program_id@) {
                if let Some(fs) = factory_state_from_bytes(accounts[1].data@) {
                    lemma_derive_same(env, accounts, expected_factory, fs);
                }
            }
        }
    }
}

/// Two account lists that agree but for the order of two different mints
/// derive the same pair.
proof fn lemma_derive_same(env: Env, accounts: Seq<AccountView>, fk: Seq<u8>, fs: FactoryState)
    requires
        accounts.len() >= CREATE_PAIR_ACCOUNTS,
        accounts[3].key@ != accounts[4].key@,
    ensures
        match (create_pair_derive_spec(env, accounts, fk, fs), create_pair_derive_spec(env, exchange_mints(accounts), fk, fs)) {
            (Ok((s1, v1, p1, b1, l1, f1, y1)), Ok((s2, v2, p2, b2, l2, f2, y2))) => s1 != s2 && v1 == v2
                && p1 == p2 && b1 == b2 && l1 == l2 && f1 == f2 && y1 == y2,
            (Err(e1), Err(e2)) => e1 == e2,
            _ => false,
        },
{
    let x = exchange_mints(accounts);
    assert(x[3] == accounts[4]);
    assert(x[4] == accounts[3]);
    assert(x[2] == accounts[2]);
    assert(x[5] == accounts[5]);
    assert(x[6] == accounts[6]);
    assert(x[7] == accounts[7]);
    crate::key::lemma_bytes_lt_total(accounts[3].key@, accounts[4].key@);
    let s1 = canonical_mints(accounts[3].key@, accounts[4].key@);
    let s2 = canonical_mints(x[3].key@, x[4].key@);
    assert(s1 != s2);
    assert(x[mint0_index(s2)] == accounts[mint0_index(s1)]);
    assert(x[mint1_index(s2)] == accounts[mint1_index(s1)]);
}

/// The signer seeds of a pair PDA.
pub open spec fn pair_claim_seeds_spec(factory: Seq<u8>, mint0: Seq<u8>, mint1: Seq<u8>, bump: u8) -> Seq<
    Seq<u8>,
> {
    pair_seeds_spec(factory, mint0, mint1).push(seq![bump])
}

/// The signer seeds of an LP mint PDA.
pub open spec fn lp_claim_seeds_spec(pair: Seq<u8>, bump: u8) -> Seq<Seq<u8>> {
    lp_mint_seeds_spec(pair).push(seq![bump])
}

/// The checks made once the pair and vault accounts exist; on success the
/// rent-exempt balance of the LP mint.
pub open spec fn create_pair_mint_spec(env: Env, accounts: Seq<AccountView>, plan: PairPlan) -> Result<
    u64,
    AmmError,
> {
    if accounts.len() < CREATE_PAIR_ACCOUNTS {
        Err(AmmError::NotEnoughAccountKeys)
    } else {
        let mint0 = accounts[mint0_index(plan.mints_swapped)].key@;
        let mint1 = accounts[mint1_index(plan.mints_swapped)].key@;
        after(
            token_account_check_spec(accounts[vault0_index(plan.vaults_swapped)].data@, plan.pair@, mint0),
            after(
                token_account_check_spec(accounts[vault1_index(plan.vaults_swapped)].data@, plan.pair@, mint1),
                match env.rent {
                    None => Err(AmmError::UnsupportedSysvar),
                    Some(rent) => after(
                        require(
                            !(accounts[7].lamports != 0 && (accounts[7].owner@ != system_program_bytes()
                                || accounts[7].data@.len() != 0)),
                            AmmError::AccountAlreadyInitialized,
                        ),
                        Ok(rent.mint),
                    ),
                },
            ),
        )
    }
}

/// The state of a newly created pair.
pub open spec fn new_pair_state(accounts: Seq<AccountView>, plan: PairPlan) -> PairState {
    PairState {
        is_initialized: true,
        factory: accounts[1].key,
        token0_mint: accounts[mint0_index(plan.mints_swapped)].key,
        token1_mint: accounts[mint1_index(plan.mints_swapped)].key,
        vault0: accounts[vault0_index(plan.vaults_swapped)].key,
        vault1: accounts[vault1_index(plan.vaults_swapped)].key,
        lp_mint: accounts[7].key,
        reserve0: 0,
        reserve1: 0,
        k_last: 0,
        price0_cumulative_last: 0,
        price1_cumulative_last: 0,
        block_timestamp_last: 0,
    }
}

/// The new data of the pair and factory accounts, or why they cannot be written.
pub open spec fn create_pair_write_spec(accounts: Seq<AccountView>, plan: PairPlan) -> Result<
    (Seq<u8>, Seq<u8>),
    AmmError,
> {
    if accounts.len() < CREATE_PAIR_ACCOUNTS {
        Err(AmmError::NotEnoughAccountKeys)
    } else {
        match overwrite_spec(accounts[2].data@, pair_state_bytes(new_pair_state(accounts, plan))) {
            None => Err(AmmError::InvalidAccountData),
            Some(pair_data) => if plan.factory.pair_count == u64::MAX {
                Err(AmmError::ArithmeticOverflow)
            } else {
                match overwrite_spec(
                    accounts[1].data@,
                    factory_state_bytes(
                        FactoryState { pair_count: (plan.factory.pair_count + 1) as u64, ..plan.factory },
                    ),
                ) {
                    None => Err(AmmError::InvalidAccountData),
                    Some(factory_data) => Ok((pair_data, factory_data)),
                }
            },
        }
    }
}

/// The instruction's accounts with the mints exchanged when `mints`, and the
/// vaults exchanged when `vaults`.
pub open spec fn reorder(accounts: Seq<AccountView>, mints: bool, vaults: bool) -> Seq<AccountView> {
    let a = if mints {
        exchange_mints(accounts)
    } else {
        accounts
    };
    if vaults {
        a.update(5, a[6]).update(6, a[5])
    } else {
        a
    }
}

/// A creation plan read against reordered accounts.
pub open spec fn reorder_plan(plan: PairPlan, mints: bool, vaults: bool) -> PairPlan {
    PairPlan {
        mints_swapped: plan.mints_swapped != mints,
        vaults_swapped: plan.vaults_swapped != vaults,
        ..plan
    }
}

/// The stored pair does not depend on the order in which the mints and the
/// vaults are given: with either pair of accounts exchanged and the plan read
/// accordingly, the LP mint step is decided alike, and the written pair
/// state, pair data and factory data are the same.
pub proof fn lemma_pair_state_ignores_order(
    env: Env,
    accounts: Seq<AccountView>,
    plan: PairPlan,
    mints: bool,
    vaults: bool,
)
    requires
        accounts.len() >= CREATE_PAIR_ACCOUNTS,
    ensures
        new_pair_state(reorder(accounts, mints, vaults), reorder_plan(plan, mints, vaults))
            == new_pair_state(accounts, plan),
        create_pair_mint_spec(env, reorder(accounts, mints, vaults), reorder_plan(plan, mints, vaults))
            == create_pair_mint_spec(env, accounts, plan),
        create_pair_write_spec(reorder(accounts, mints, vaults), reorder_plan(plan, mints, vaults))
            == create_pair_write_spec(accounts, plan),
{
    let x = reorder(accounts, mints, vaults);
    let q = reorder_plan(plan, mints, vaults);
    assert(x.len() == accounts.len());
    assert(x[1] == accounts[1]);
    assert(x[2] == accounts[2]);
    assert(x[7] == accounts[7]);
    assert(x[mint0_index(q.mints_swapped)] == accounts[mint0_index(plan.mints_swapped)]);
    assert(x[mint1_index(q.mints_swapped)] == accounts[mint1_index(plan.mints_swapped)]);
    assert(x[vault0_index(q.vaults_swapped)] == accounts[vault0_index(plan.vaults_swapped)]);
    assert(x[vault1_index(q.vaults_swapped)] == accounts[vault1_index(plan.vaults_swapped)]);
    assert(q.factory == plan.factory && q.pair == plan.pair);
    assert(new_pair_state(x, q) == new_pair_state(accounts, plan));
}

fn create_pair_start(env: &Env, accounts: &Vec<AccountView>) -> (r: Result<Step<CreatePairStage>, AmmError>)
    requires
        accounts@.len() >= CREATE_PAIR_ACCOUNTS,
    ensures
        match create_pair_start_spec(*env, accounts@) {
            Ok((swapped, vaults_swapped, pair, pair_bump, lp_bump, fs, lamports)) => r matches Ok(
                Step::Invoke { cpis, next },
            ) && next matches CreatePairStage::Mint { plan } && plan.mints_swapped == swapped
                && plan.vaults_swapped == vaults_swapped && plan.pair@ == pair && plan.pair_bump
                == pair_bump && plan.lp_bump == lp_bump && plan.factory == fs && cpis@.len() >= 2
                && claim_plan_ok(
                cpis@.subrange(0, cpis@.len() - 2),
                0,
                2,
                accounts@[2].lamports,
                env.program_id,
                lamports,
                PairState::LEN as u64,
                10,
                pair_claim_seeds_spec(
                    accounts@[1].key@,
                    accounts@[mint0_index(swapped)].key@,
                    accounts@[mint1_index(swapped)].key@,
                    pair_bump,
                ),
            ) && cpis@[cpis@.len() - 2] == (Cpi::CreateAta {
                payer: 0,
                ata: vault0_index(vaults_swapped) as usize,
                owner: 2,
                mint: mint0_index(swapped) as usize,
                system_program: 10,
                token_program: 8,
                ata_program: 9,
                rent_sysvar: 11,
            }) && cpis@[cpis@.len() - 1] == (Cpi::CreateAta {
                payer: 0,
                ata: vault1_index(vaults_swapped) as usize,
                owner: 2,
                mint: mint1_index(swapped) as usize,
                system_program: 10,
                token_program: 8,
                ata_program: 9,
                rent_sysvar: 11,
            }),
            Err(e) => r == Err::<Step<CreatePairStage>, AmmError>(e),
        },
{
    let programs = SplProgramAccounts {
        token_program: 8,
        ata_program: 9,
        system_program: 10,
        rent_sysvar: 11,
    };
        let payer = &accounts[0];
        let factory = &accounts[1];
        let pair = &accounts[2];
        let mint_a = &accounts[3];
        let mint_b = &accounts[4];
        if !payer.is_signer {
            return Err(AmmError::MissingRequiredSignature);
        }
        let admin = program_admin_authority();
        if !payer.key.equals(&admin) {
            return Err(AmmError::IllegalOwner);
        }
        if !accounts[10].key.equals(&system_program_id()) {
            return Err(AmmError::IncorrectProgramId);
        }
        if !accounts[8].key.equals(&token_program_id()) {
            return Err(AmmError::IncorrectProgramId);
        }
        if !accounts[9].key.equals(&ata_program_id()) {
            return Err(AmmError::IncorrectProgramId);
        }
        if !accounts[11].key.equals(&rent_sysvar_id()) {
            return Err(AmmError::InvalidAccountData);
        }
        if mint_a.key.equals(&mint_b.key) {
            return Err(AmmError::InvalidArgument);
        }
        let (expected_factory, _) = match derive_factory_pda(&env.program_id) {
            None => {
                return Err(AmmError::InvalidSeeds);
            },
            Some(found) => found,
        };
        if !factory.key.equals(&expected_factory) {
            return Err(AmmError::InvalidSeeds);
        }
        if !factory.owner.equals(&env.program_id) {
            return Err(AmmError::IllegalOwner);
        }
        let factory_state = match FactoryState::try_from_slice(factory.data.as_slice()) {
            None => {
                return Err(AmmError::InvalidAccountData);
            },
            Some(s) => s,
        };
        if !factory_state.is_initialized {
            return Err(AmmError::UninitializedAccount);
        }
        if !mint_a.owner.equals(&accounts[8].key) {
            return Err(AmmError::IllegalOwner);
        }
        if !mint_b.owner.equals(&accounts[8].key) {
            return Err(AmmError::IllegalOwner);
        }
        mint_supply(mint_a.data.as_slice())?;
        mint_supply(mint_b.data.as_slice())?;
        let swapped = !mint_a.key.less_than(&mint_b.key);
        let (m0, m1): (usize, usize) = if swapped {
            (4, 3)
        } else {
            (3, 4)
        };
        let mint0 = &accounts[m0];
        let mint1 = &accounts[m1];
        let (expected_pair, pair_bump) = match derive_pair_pda(
            &env.program_id,
            &expected_factory,
            &mint0.key,
            &mint1.key,
        ) {
            None => {
                return Err(AmmError::InvalidSeeds);
            },
            Some(found) => found,
        };
        if !pair.key.equals(&expected_pair) {
            return Err(AmmError::InvalidSeeds);
        }
        let expected_vault0 = match get_ata(&expected_pair, &mint0.key) {
            None => {
                return Err(AmmError::InvalidSeeds);
            },
            Some(k) => k,
        };
        let expected_vault1 = match get_ata(&expected_pair, &mint1.key) {
            None => {
                return Err(AmmError::InvalidSeeds);
            },
            Some(k) => k,
        };
        let vault_a = &accounts[5].key;
        let vault_b = &accounts[6].key;
        let vaults_swapped = if vault_a.equals(&expected_vault0) && vault_b.equals(
            &expected_vault1,
        ) {
            false
        } else if vault_a.equals(&expected_vault1) && vault_b.equals(&expected_vault0) {
            true
        } else {
            return Err(AmmError::InvalidArgument);
        };
        let (expected_lp_mint, lp_bump) = match derive_lp_mint_pda(
            &env.program_id,
            &expected_pair,
        ) {
            None => {
                return Err(AmmError::InvalidSeeds);
            },
            Some(found) => found,
        };
        if !accounts[7].key.equals(&expected_lp_mint) {
            return Err(AmmError::InvalidSeeds);
        }
        let rent = match env.rent {
            None => {
                return Err(AmmError::UnsupportedSysvar);
            },
            Some(rent) => rent,
        };
        let mut seeds: Vec<Vec<u8>> = Vec::new();
        let s0 = pair_seed_prefix();
        let s1 = factory.key.to_vec();
        let s2 = mint0.key.to_vec();
        let s3 = mint1.key.to_vec();
        let mut s4: Vec<u8> = Vec::new();
        s4.push(pair_bump);
        proof {
            lemma_bytes_deep_view(s0);
            lemma_bytes_deep_view(s1);
            lemma_bytes_deep_view(s2);
            lemma_bytes_deep_view(s3);
            lemma_bytes_deep_view(s4);
        }
        assert(s4@ =~= seq![pair_bump]);
        seeds.push(s0);
        seeds.push(s1);
        seeds.push(s2);
        seeds.push(s3);
        seeds.push(s4);
        assert(seeds.deep_view() =~= pair_claim_seeds_spec(
            factory.key@,
            mint0.key@,
            mint1.key@,
            pair_bump,
        ));
        let mut cpis = create_or_claim_pda_account(
            0,
            2,
            pair,
            &env.program_id,
            rent.pair,
            PairState::LEN as u64,
            10,
            &system_program_id(),
            &seeds,
        )?;
        let ghost claim = cpis@;
        let (v0, v1): (usize, usize) = if vaults_swapped {
            (6, 5)
        } else {
            (5, 6)
        };
        cpis.push(create_ata_if_needed(0, v0, 2, m0, &programs));
        cpis.push(create_ata_if_needed(0, v1, 2, m1, &programs));
        assert(cpis@.subrange(0, cpis@.len() - 2) =~= claim);
        let plan = PairPlan {
            mints_swapped: swapped,
            vaults_swapped,
            pair: expected_pair,
            pair_bump,
            lp_bump,
            factory: factory_state,
        };
        Ok(Step::Invoke { cpis, next: CreatePairStage::Mint { plan } })
    
}

fn create_pair_mint(env: &Env, accounts: &Vec<AccountView>, plan: PairPlan) -> (r: Result<Step<CreatePairStage>, AmmError>)
    requires
        accounts@.len() >= CREATE_PAIR_ACCOUNTS,
    ensures
        match create_pair_mint_spec(
            *env,
            accounts@,
            plan,
        ) {
            Ok(lamports) => r matches Ok(Step::Invoke { cpis, next }) && next == (
            CreatePairStage::Write { plan }) && cpis@.len() >= 1 && claim_plan_ok(
                cpis@.subrange(0, cpis@.len() - 1),
                0,
                7,
                accounts@[7].lamports,
                accounts@[8].key,
                lamports,
                mint_account_size(),
                10,
                lp_claim_seeds_spec(plan.pair@, plan.lp_bump),
            ) && cpis@[cpis@.len() - 1] == (Cpi::InitializeMint {
                token_program: 8,
                mint: 7,
                mint_authority: 2,
                rent_sysvar: 11,
                decimals: LP_DECIMALS,
            }),
            Err(e) => r == Err::<Step<CreatePairStage>, AmmError>(e),
        },
{
        let (m0, m1): (usize, usize) = if plan.mints_swapped {
            (4, 3)
        } else {
            (3, 4)
        };
        let (v0, v1): (usize, usize) = if plan.vaults_swapped {
            (6, 5)
        } else {
            (5, 6)
        };
        assert_token_account(accounts[v0].data.as_slice(), &plan.pair, &accounts[m0].key)?;
        assert_token_account(accounts[v1].data.as_slice(), &plan.pair, &accounts[m1].key)?;
        let rent = match env.rent {
            None => {
                return Err(AmmError::UnsupportedSysvar);
            },
            Some(rent) => rent,
        };
        let mut seeds: Vec<Vec<u8>> = Vec::new();
        let s0 = lp_mint_seed_prefix();
        let s1 = plan.pair.to_vec();
        let mut s2: Vec<u8> = Vec::new();
        s2.push(plan.lp_bump);
        proof {
            lemma_bytes_deep_view(s0);
            lemma_bytes_deep_view(s1);
            lemma_bytes_deep_view(s2);
        }
        assert(s2@ =~= seq![plan.lp_bump]);
        seeds.push(s0);
        seeds.push(s1);
        seeds.push(s2);
        assert(seeds.deep_view() =~= lp_claim_seeds_spec(plan.pair@, plan.lp_bump));
        let mut cpis = create_mint_account_signed(
            0,
            7,
            &accounts[7],
            &accounts[8].key,
            10,
            &system_program_id(),
            rent.mint,
            mint_account_len(),
            &seeds,
        )?;
        let ghost claim = cpis@;
        cpis.push(init_mint(8, 7, 2, 11, LP_DECIMALS));
        assert(cpis@.subrange(0, cpis@.len() - 1) =~= claim);
        Ok(Step::Invoke { cpis, next: CreatePairStage::Write { plan } })
    
}

fn create_pair_write(accounts: &Vec<AccountView>, plan: PairPlan) -> (r: Result<Step<CreatePairStage>, AmmError>)
    requires
        accounts@.len() >= CREATE_PAIR_ACCOUNTS,
    ensures
        match create_pair_write_spec(accounts@, plan) {
            Ok((pair_data, factory_data)) => r matches Ok(Step::Finish { writes }) && writes@.len()
                == 2 && writes@[0].account == 2 && writes@[0].data@ == pair_data
                && writes@[1].account == 1 && writes@[1].data@ == factory_data,
            Err(e) => r == Err::<Step<CreatePairStage>, AmmError>(e),
        },{
        let (m0, m1): (usize, usize) = if plan.mints_swapped {
            (4, 3)
        } else {
            (3, 4)
        };
        let (v0, v1): (usize, usize) = if plan.vaults_swapped {
            (6, 5)
        } else {
            (5, 6)
        };
        let pair_state = PairState {
            is_initialized: true,
            factory: accounts[1].key,
            token0_mint: accounts[m0].key,
            token1_mint: accounts[m1].key,
            vault0: accounts[v0].key,
            vault1: accounts[v1].key,
            lp_mint: accounts[7].key,
            reserve0: 0,
            reserve1: 0,
            k_last: 0,
            price0_cumulative_last: 0,
            price1_cumulative_last: 0,
            block_timestamp_last: 0,
        };
        assert(pair_state == new_pair_state(accounts@, plan));
        let pair_data = match overwrite_prefix(&accounts[2].data, &pair_state.to_bytes()) {
            None => {
                return Err(AmmError::InvalidAccountData);
            },
            Some(d) => d,
        };
        if plan.factory.pair_count == u64::MAX {
            return Err(AmmError::ArithmeticOverflow);
        }
        let factory_state = FactoryState {
            is_initialized: plan.factory.is_initialized,
            pair_count: plan.factory.pair_count + 1,
        };
        let factory_data = match overwrite_prefix(&accounts[1].data, &factory_state.to_bytes()) {
            None => {
                return Err(AmmError::InvalidAccountData);
            },
            Some(d) => d,
        };
        let mut writes: Vec<AccountWrite> = Vec::new();
        writes.push(AccountWrite { account: 2, data: pair_data });
        writes.push(AccountWrite { account: 1, data: factory_data });
        Ok(Step::Finish { writes })
    
}

/// What a pair creation step yields.
pub open spec fn create_pair_post(env: Env, accounts: Seq<AccountView>, stage: CreatePairStage, r: Result<Step<CreatePairStage>, AmmError>) -> bool {
    &&& (stage is Start ==> match create_pair_start_spec(env, accounts) {
        Ok((swapped, vaults_swapped, pair, pair_bump, lp_bump, fs, lamports)) => r matches Ok(
            Step::Invoke { cpis, next },
        ) && next matches CreatePairStage::Mint { plan } && plan.mints_swapped == swapped
            && plan.vaults_swapped == vaults_swapped && plan.pair@ == pair && plan.pair_bump
            == pair_bump && plan.lp_bump == lp_bump && plan.factory == fs && cpis@.len() >= 2
            && claim_plan_ok(
            cpis@.subrange(0, cpis@.len() - 2),
            0,
            2,
            accounts[2].lamports,
            env.program_id,
            lamports,
            PairState::LEN as u64,
            10,
            pair_claim_seeds_spec(
                accounts[1].key@,
                accounts[mint0_index(swapped)].key@,
                accounts[mint1_index(swapped)].key@,
                pair_bump,
            ),
        ) && cpis@[cpis@.len() - 2] == (Cpi::CreateAta {
            payer: 0,
            ata: vault0_index(vaults_swapped) as usize,
            owner: 2,
            mint: mint0_index(swapped) as usize,
            system_program: 10,
            token_program: 8,
            ata_program: 9,
            rent_sysvar: 11,
        }) && cpis@[cpis@.len() - 1] == (Cpi::CreateAta {
            payer: 0,
            ata: vault1_index(vaults_swapped) as usize,
            owner: 2,
            mint: mint1_index(swapped) as usize,
            system_program: 10,
            token_program: 8,
            ata_program: 9,
            rent_sysvar: 11,
        }),
        Err(e) => r == Err::<Step<CreatePairStage>, AmmError>(e),
    })
    &&& (stage matches CreatePairStage::Mint { plan } ==> match create_pair_mint_spec(
        env,
        accounts,
        plan,
    ) {
        Ok(lamports) => r matches Ok(Step::Invoke { cpis, next }) && next == (
        CreatePairStage::Write { plan }) && cpis@.len() >= 1 && claim_plan_ok(
            cpis@.subrange(0, cpis@.len() - 1),
            0,
            7,
            accounts[7].lamports,
            accounts[8].key,
            lamports,
            mint_account_size(),
            10,
            lp_claim_seeds_spec(plan.pair@, plan.lp_bump),
        ) && cpis@[cpis@.len() - 1] == (Cpi::InitializeMint {
            token_program: 8,
            mint: 7,
            mint_authority: 2,
            rent_sysvar: 11,
            decimals: LP_DECIMALS,
        }),
        Err(e) => r == Err::<Step<CreatePairStage>, AmmError>(e),
    })
    &&& (stage matches CreatePairStage::Write { plan } ==> match create_pair_write_spec(accounts, plan) {
        Ok((pair_data, factory_data)) => r matches Ok(Step::Finish { writes }) && writes@.len()
            == 2 && writes@[0].account == 2 && writes@[0].data@ == pair_data
            && writes@[1].account == 1 && writes@[1].data@ == factory_data,
        Err(e) => r == Err::<Step<CreatePairStage>, AmmError>(e),
    })
}

/// Creates a new pair account, its vault ATAs, and the LP mint PDA.
///
/// The two input mints are canonically sorted before deriving the pair PDA so
/// that `(A, B)` and `(B, A)` always map to the same pool.
///
/// Accounts: 0) payer (signer, the program admin), 1) factory PDA (writable),
/// 2) pair PDA (writable), 3) mint A, 4) mint B, 5) vault A ATA, 6) vault B
/// ATA, 7) LP mint PDA, 8) token program, 9) ATA program, 10) system program,
/// 11) rent sysvar.
pub fn create_pair(env: &Env, accounts: &Vec<AccountView>, stage: CreatePairStage) -> (r: Result<
    Step<CreatePairStage>,
    AmmError,
>)
    ensures
        create_pair_post(*env, accounts@, stage, r),
{
    if accounts.len() < CREATE_PAIR_ACCOUNTS {
        return Err(AmmError::NotEnoughAccountKeys);
    }
    match stage {
        CreatePairStage::Start => create_pair_start(env, accounts),
        CreatePairStage::Mint { plan } => create_pair_mint(env, accounts, plan),
        CreatePairStage::Write { plan } => create_pair_write(accounts, plan),
    }
}

} // verus!
