//! Initializing the singleton factory account.

use vstd::prelude::*;

use super::lib::{
    after, claim_plan_ok, create_or_claim_pda_account, derive_factory_pda, factory_seeds_spec,
    lemma_bytes_deep_view, overwrite_prefix, overwrite_spec, require, AccountView, AccountWrite, Cpi,
    Env, Step,
};
use crate::chain::{found_program_address, system_program_bytes, system_program_id};
use crate::constants::{factory_seed, program_admin_authority, program_admin_bytes};
use crate::error::AmmError;
use crate::state::{factory_state_bytes, FactoryState};

verus! {

/// Number of accounts `init_factory` reads: payer, factory PDA, system program.
pub const INIT_FACTORY_ACCOUNTS: usize = 3;

/// Where the factory initialization stands.
#[derive(Clone, Copy, Debug)]
pub enum InitFactoryStage {
    /// Nothing has happened yet.
    Start,
    /// The factory account exists; its state is to be written.
    Write,
}

/// The signer seeds of the factory PDA with its bump.
pub open spec fn factory_signer_seeds_spec(bump: u8) -> Seq<Seq<u8>> {
    factory_seeds_spec().push(seq![bump])
}

/// The checks made before the factory account is created; on success the
/// rent-exempt balance to fund it with and the factory PDA's bump.
pub open spec fn init_factory_start_spec(env: Env, accounts: Seq<AccountView>) -> Result<(u64, u8), AmmError> {
    if accounts.len() < INIT_FACTORY_ACCOUNTS {
        Err(AmmError::NotEnoughAccountKeys)
    } else {
        let payer = accounts[0];
        let factory = accounts[1];
        after(
            require(payer.is_signer, AmmError::MissingRequiredSignature),
            after(
                require(payer.key@ == program_admin_bytes(), AmmError::IllegalOwner),
                after(
                    require(accounts[2].key@ == system_program_bytes(), AmmError::IncorrectProgramId),
                    match found_program_address(factory_seeds_spec(), env.program_id@) {
                        None => Err(AmmError::InvalidSeeds),
                        Some((expected, bump)) => after(
                            require(factory.key@ == expected, AmmError::InvalidSeeds),
                            match env.rent {
                                None => Err(AmmError::UnsupportedSysvar),
                                Some(rent) => after(
                                    require(
                                        !(factory.lamports != 0 && (factory.owner@
                                            != system_program_bytes() || factory.data@.len()
                                            != 0)),
                                        AmmError::AccountAlreadyInitialized,
                                    ),
                                    Ok((rent.factory, bump)),
                                ),
                            },
                        ),
                    },
                ),
            ),
        )
    }
}

/// The initialized factory state.
pub open spec fn new_factory_state() -> FactoryState {
    FactoryState { is_initialized: true, pair_count: 0 }
}

/// What a factory initialization step yields.
pub open spec fn init_factory_post(env: Env, accounts: Seq<AccountView>, stage: InitFactoryStage, r: Result<Step<InitFactoryStage>, AmmError>) -> bool {
    &&& (stage is Start ==> match init_factory_start_spec(env, accounts) {
        Ok((lamports, bump)) => r matches Ok(Step::Invoke { cpis, next }) && next
            == InitFactoryStage::Write && claim_plan_ok(
            cpis@,
            0,
            1,
            accounts[1].lamports,
            env.program_id,
            lamports,
            FactoryState::LEN as u64,
            2,
            factory_signer_seeds_spec(bump),
        ),
        Err(e) => r == Err::<Step<InitFactoryStage>, AmmError>(e),
    })
    &&& (stage is Write ==> if accounts.len() < INIT_FACTORY_ACCOUNTS {
        r == Err::<Step<InitFactoryStage>, AmmError>(AmmError::NotEnoughAccountKeys)
    } else {
        match overwrite_spec(accounts[1].data@, factory_state_bytes(new_factory_state())) {
            Some(d) => r matches Ok(Step::Finish { writes }) && writes@.len() == 1
                && writes@[0].account == 1 && writes@[0].data@ == d,
            None => r == Err::<Step<InitFactoryStage>, AmmError>(AmmError::BorshIoError),
        }
    })
}

/// A factory that was initialized is not initialized again: while the factory
/// account holds lamports and data, a new initialization is refused at its
/// first step, before anything is asked for or written, and as already
/// initialized whenever the caller, the system program, the factory address
/// and the rent are as they must be.
pub proof fn lemma_second_init_refused(
    env: Env,
    accounts: Seq<AccountView>,
    r: Result<Step<InitFactoryStage>, AmmError>,
)
    requires
        init_factory_post(env, accounts, InitFactoryStage::Start, r),
        accounts.len() >= INIT_FACTORY_ACCOUNTS,
        accounts[1].lamports != 0,
        accounts[1].data@.len() != 0,
    ensures
        r is Err,
        (accounts[0].is_signer && accounts[0].key@ == program_admin_bytes() && accounts[2].key@
            == system_program_bytes() && env.rent is Some && found_program_address(
            factory_seeds_spec(),
            env.program_id@,
        ) is Some && found_program_address(factory_seeds_spec(), env.program_id@).unwrap().0
            == accounts[1].key@) ==> r == Err::<
            Step<InitFactoryStage>,
            AmmError,
        >(AmmError::AccountAlreadyInitialized),
{
}

/// Initializes the singleton factory account for the program.
///
/// The payer must be the program admin.
///
/// Accounts: 0) payer (signer), 1) factory PDA (writable), 2) system program.
pub fn init_factory(env: &Env, accounts: &Vec<AccountView>, stage: InitFactoryStage) -> (r: Result<
    Step<InitFactoryStage>,
    AmmError,
>)
    ensures
        init_factory_post(*env, accounts@, stage, r),
{
    if accounts.len() < INIT_FACTORY_ACCOUNTS {
        return Err(AmmError::NotEnoughAccountKeys);
    }
    match stage {
        InitFactoryStage::Start => {
            let payer = &accounts[0];
            let factory = &accounts[1];
            if !payer.is_signer {
                return Err(AmmError::MissingRequiredSignature);
            }
            let admin = program_admin_authority();
            if !payer.key.equals(&admin) {
                return Err(AmmError::IllegalOwner);
            }
            if !accounts[2].key.equals(&system_program_id()) {
                return Err(AmmError::IncorrectProgramId);
            }
            let (expected_factory, factory_bump) = match derive_factory_pda(&env.program_id) {
                None => {
                    return Err(AmmError::InvalidSeeds);
                },
                Some(found) => found,
            };
            if !expected_factory.equals(&factory.key) {
                return Err(AmmError::InvalidSeeds);
            }
            let rent = match env.rent {
                None => {
                    return Err(AmmError::UnsupportedSysvar);
                },
                Some(rent) => rent,
            };
            let mut seeds: Vec<Vec<u8>> = Vec::new();
            let seed = factory_seed();
            let mut bump: Vec<u8> = Vec::new();
            bump.push(factory_bump);
            proof {
                lemma_bytes_deep_view(seed);
                lemma_bytes_deep_view(bump);
            }
            assert(bump@ =~= seq![factory_bump]);
            seeds.push(seed);
            seeds.push(bump);
            assert(seeds.deep_view() =~= factory_signer_seeds_spec(factory_bump));
            let cpis = create_or_claim_pda_account(
                0,
                1,
                factory,
                &env.program_id,
                rent.factory,
                FactoryState::LEN as u64,
                2,
                &system_program_id(),
                &seeds,
            )?;
            Ok(Step::Invoke { cpis, next: InitFactoryStage::Write })
        },
        InitFactoryStage::Write => {
            let state = FactoryState { is_initialized: true, pair_count: 0 };
            let encoding = state.to_bytes();
            match overwrite_prefix(&accounts[1].data, &encoding) {
                None => Err(AmmError::BorshIoError),
                Some(data) => {
                    let mut writes: Vec<AccountWrite> = Vec::new();
                    writes.push(AccountWrite { account: 1, data });
                    Ok(Step::Finish { writes })
                },
            }
        },
    }
}

} // verus!
