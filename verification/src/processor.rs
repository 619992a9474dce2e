//! The program's entry: decoding the instruction and stepping its handler.

use vstd::prelude::*;

use crate::cmd::{cmd_from_bytes, Cmd};
use crate::error::AmmError;
use crate::instructions::add_liquidity::{add_liquidity, add_liquidity_post, AddLiquidityStage};
use crate::instructions::create_pair::{create_pair, create_pair_post, CreatePairStage};
use crate::instructions::init_factory::{init_factory, init_factory_post, InitFactoryStage};
use crate::instructions::lib::{AccountView, Env, Step};
use crate::instructions::remove_liquidity::{
    remove_liquidity, remove_liquidity_post, RemoveLiquidityStage,
};
use crate::instructions::skim::{skim, skim_post, SkimStage};
use crate::instructions::swap::{swap, swap_post, SwapStage};
use crate::instructions::sync::{sync, sync_spec};
use crate::constants::program_admin_bytes;
use crate::state::pair_state_bytes;

verus! {

/// Where an instruction stands, whichever it is.
#[derive(Clone, Copy, Debug)]
pub enum Stage {
    /// The instruction has not started.
    Begin,
    InitFactory(InitFactoryStage),
    CreatePair(CreatePairStage),
    AddLiquidity(AddLiquidityStage),
    Swap(SwapStage),
    RemoveLiquidity(RemoveLiquidityStage),
    Skim(SkimStage),
}

/// A step of one instruction seen as a step of the program: the same
/// invocations or writes, the next stage taken out of `project`.
pub open spec fn unlift<S>(r: Result<Step<Stage>, AmmError>, project: spec_fn(Stage) -> S) -> Result<
    Step<S>,
    AmmError,
> {
    match r {
        Err(e) => Err(e),
        Ok(Step::Finish { writes }) => Ok(Step::Finish { writes }),
        Ok(Step::Invoke { cpis, next }) => Ok(Step::Invoke { cpis, next: project(next) }),
    }
}

/// The next stage, if any, belongs to the instruction that `is_same` recognizes.
pub open spec fn stays_in(r: Result<Step<Stage>, AmmError>, is_same: spec_fn(Stage) -> bool) -> bool {
    r matches Ok(Step::Invoke { next, .. }) ==> is_same(next)
}

pub open spec fn project_init_factory(s: Stage) -> InitFactoryStage {
    match s {
        Stage::InitFactory(t) => t,
        _ => InitFactoryStage::Start,
    }
}

pub open spec fn project_create_pair(s: Stage) -> CreatePairStage {
    match s {
        Stage::CreatePair(t) => t,
        _ => CreatePairStage::Start,
    }
}

pub open spec fn project_add_liquidity(s: Stage) -> AddLiquidityStage {
    match s {
        Stage::AddLiquidity(t) => t,
        _ => AddLiquidityStage::Start,
    }
}

pub open spec fn project_swap(s: Stage) -> SwapStage {
    match s {
        Stage::Swap(t) => t,
        _ => SwapStage::Start,
    }
}

pub open spec fn project_remove_liquidity(s: Stage) -> RemoveLiquidityStage {
    match s {
        Stage::RemoveLiquidity(t) => t,
        _ => RemoveLiquidityStage::Start,
    }
}

pub open spec fn project_skim(s: Stage) -> SkimStage {
    match s {
        Stage::Skim(t) => t,
        _ => SkimStage::Start,
    }
}

/// What one step of the program yields for instruction `c` at `stage`: the
/// step of that instruction's handler, starting from its first stage at
/// `Begin`; a stage of another instruction is refused as invalid
/// instruction data.
pub open spec fn process_post(
    env: Env,
    accounts: Seq<AccountView>,
    c: Cmd,
    stage: Stage,
    r: Result<Step<Stage>, AmmError>,
) -> bool {
    match c {
        Cmd::InitFactory => {
            let inner = match stage {
                Stage::Begin => Some(InitFactoryStage::Start),
                Stage::InitFactory(t) => Some(t),
                _ => None,
            };
            match inner {
                None => r == Err::<Step<Stage>, AmmError>(AmmError::InvalidInstructionData),
                Some(t) => stays_in(r, |s: Stage| s is InitFactory) && init_factory_post(
                    env,
                    accounts,
                    t,
                    unlift(r, |s: Stage| project_init_factory(s)),
                ),
            }
        },
        Cmd::CreatePair => {
            let inner = match stage {
                Stage::Begin => Some(CreatePairStage::Start),
                Stage::CreatePair(t) => Some(t),
                _ => None,
            };
            match inner {
                None => r == Err::<Step<Stage>, AmmError>(AmmError::InvalidInstructionData),
                Some(t) => stays_in(r, |s: Stage| s is CreatePair) && create_pair_post(
                    env,
                    accounts,
                    t,
                    unlift(r, |s: Stage| project_create_pair(s)),
                ),
            }
        },
        Cmd::AddLiquidity { amount0_desired, amount1_desired, amount0_min, amount1_min } => {
            let inner = match stage {
                Stage::Begin => Some(AddLiquidityStage::Start),
                Stage::AddLiquidity(t) => Some(t),
                _ => None,
            };
            match inner {
                None => r == Err::<Step<Stage>, AmmError>(AmmError::InvalidInstructionData),
                Some(t) => stays_in(r, |s: Stage| s is AddLiquidity) && add_liquidity_post(
                    env,
                    accounts,
                    amount0_desired,
                    amount1_desired,
                    amount0_min,
                    amount1_min,
                    t,
                    unlift(r, |s: Stage| project_add_liquidity(s)),
                ),
            }
        },
        Cmd::Swap { amount0_out, amount1_out } => {
            let inner = match stage {
                Stage::Begin => Some(SwapStage::Start),
                Stage::Swap(t) => Some(t),
                _ => None,
            };
            match inner {
                None => r == Err::<Step<Stage>, AmmError>(AmmError::InvalidInstructionData),
                Some(t) => stays_in(r, |s: Stage| s is Swap) && swap_post(
                    env,
                    accounts,
                    amount0_out,
                    amount1_out,
                    t,
                    unlift(r, |s: Stage| project_swap(s)),
                ),
            }
        },
        Cmd::RemoveLiquidity { liquidity, amount0_min, amount1_min } => {
            let inner = match stage {
                Stage::Begin => Some(RemoveLiquidityStage::Start),
                Stage::RemoveLiquidity(t) => Some(t),
                _ => None,
            };
            match inner {
                None => r == Err::<Step<Stage>, AmmError>(AmmError::InvalidInstructionData),
                Some(t) => stays_in(r, |s: Stage| s is RemoveLiquidity) && remove_liquidity_post(
                    env,
                    accounts,
                    liquidity,
                    amount0_min,
                    amount1_min,
                    t,
                    unlift(r, |s: Stage| project_remove_liquidity(s)),
                ),
            }
        },
        Cmd::Skim => {
            let inner = match stage {
                Stage::Begin => Some(SkimStage::Start),
                Stage::Skim(t) => Some(t),
                _ => None,
            };
            match inner {
                None => r == Err::<Step<Stage>, AmmError>(AmmError::InvalidInstructionData),
                Some(t) => stays_in(r, |s: Stage| s is Skim) && skim_post(
                    env,
                    accounts,
                    t,
                    unlift(r, |s: Stage| project_skim(s)),
                ),
            }
        },
        Cmd::Sync => match stage {
            Stage::Begin => match sync_spec(env, accounts) {
                Ok(t) => r matches Ok(Step::Finish { writes }) && writes@.len() == 1
                    && writes@[0].account == 0 && writes@[0].data@ == pair_state_bytes(t),
                Err(e) => r == Err::<Step<Stage>, AmmError>(e),
            },
            _ => r == Err::<Step<Stage>, AmmError>(AmmError::InvalidInstructionData),
        },
    }
}

/// The most steps an instruction can still take from a stage, this one included.
pub open spec fn steps_left(s: Stage) -> nat {
    match s {
        Stage::Begin => 5,
        Stage::InitFactory(t) => match t {
            InitFactoryStage::Start => 5,
            InitFactoryStage::Write => 1,
        },
        Stage::CreatePair(t) => match t {
            CreatePairStage::Start => 5,
            CreatePairStage::Mint { .. } => 2,
            CreatePairStage::Write { .. } => 1,
        },
        Stage::AddLiquidity(t) => match t {
            AddLiquidityStage::Start => 5,
            AddLiquidityStage::Fee { .. } => 4,
            AddLiquidityStage::FeeMint { .. } => 3,
            AddLiquidityStage::Deposit { .. } => 2,
            AddLiquidityStage::Settle { .. } => 1,
        },
        Stage::Swap(t) => match t {
            SwapStage::Start => 5,
            SwapStage::Settle { .. } => 1,
        },
        Stage::RemoveLiquidity(t) => match t {
            RemoveLiquidityStage::Start => 5,
            RemoveLiquidityStage::Fee { .. } => 4,
            RemoveLiquidityStage::FeeMint { .. } => 3,
            RemoveLiquidityStage::Withdraw { .. } => 2,
            RemoveLiquidityStage::Settle { .. } => 1,
        },
        Stage::Skim(t) => match t {
            SkimStage::Start => 5,
            SkimStage::Transfer { .. } => 2,
            SkimStage::Done => 1,
        },
    }
}

/// Every step that asks for invocations moves the instruction to a stage with
/// fewer steps left, and every stage has at least one: stepping an
/// instruction from `Begin` until it finishes or fails ends after at most
/// five steps.
pub proof fn lemma_steps_progress(
    env: Env,
    accounts: Seq<AccountView>,
    c: Cmd,
    stage: Stage,
    r: Result<Step<Stage>, AmmError>,
)
    requires
        process_post(env, accounts, c, stage, r),
    ensures
        steps_left(stage) >= 1,
        r matches Ok(Step::Invoke { next, .. }) ==> steps_left(next) < steps_left(stage),
{
}

/// Only the program admin, signing, can create the factory or a pair: a first
/// step of either instruction that goes ahead was signed by the admin.
pub proof fn lemma_only_admin_creates(
    env: Env,
    accounts: Seq<AccountView>,
    c: Cmd,
    r: Result<Step<Stage>, AmmError>,
)
    requires
        process_post(env, accounts, c, Stage::Begin, r),
        c is InitFactory || c is CreatePair,
        r is Ok,
    ensures
        accounts.len() >= 1,
        accounts[0].is_signer,
        accounts[0].key@ == program_admin_bytes(),
{
}

/// Deposits, withdrawals and swaps act for a signing user: a first step of
/// any of them that goes ahead was signed by the user, the first account.
pub proof fn lemma_user_signs(env: Env, accounts: Seq<AccountView>, c: Cmd, r: Result<Step<Stage>, AmmError>)
    requires
        process_post(env, accounts, c, Stage::Begin, r),
        c is AddLiquidity || c is RemoveLiquidity || c is Swap,
        r is Ok,
    ensures
        accounts.len() >= 1,
        accounts[0].is_signer,
{
}

/// Dispatches one step of an incoming instruction to its handler.
///
/// The runtime glue calls this first with `Stage::Begin`, makes the
/// invocations that a step asks for, and calls again with the step's next
/// stage and the accounts as they then are, until a step finishes.
pub fn process_instruction(
    env: &Env,
    accounts: &Vec<AccountView>,
    instruction_data: &[u8],
    stage: Stage,
) -> (r: Result<Step<Stage>, AmmError>)
    ensures
        match cmd_from_bytes(instruction_data@) {
            None => r == Err::<Step<Stage>, AmmError>(AmmError::BorshIoError),
            Some(c) => process_post(*env, accounts@, c, stage, r),
        },
{
    let cmd = match Cmd::try_from_slice(instruction_data) {
        None => {
            return Err(AmmError::BorshIoError);
        },
        Some(c) => c,
    };
    match cmd {
        Cmd::InitFactory => {
            let inner = match stage {
                Stage::Begin => InitFactoryStage::Start,
                Stage::InitFactory(t) => t,
                _ => {
                    return Err(AmmError::InvalidInstructionData);
                },
            };
            let r = init_factory(env, accounts, inner);
            match r {
                Err(e) => Err(e),
                Ok(Step::Finish { writes }) => Ok(Step::Finish { writes }),
                Ok(Step::Invoke { cpis, next }) => Ok(
                    Step::Invoke { cpis, next: Stage::InitFactory(next) },
                ),
            }
        },
        Cmd::CreatePair => {
            let inner = match stage {
                Stage::Begin => CreatePairStage::Start,
                Stage::CreatePair(t) => t,
                _ => {
                    return Err(AmmError::InvalidInstructionData);
                },
            };
            let r = create_pair(env, accounts, inner);
            match r {
                Err(e) => Err(e),
                Ok(Step::Finish { writes }) => Ok(Step::Finish { writes }),
                Ok(Step::Invoke { cpis, next }) => Ok(
                    Step::Invoke { cpis, next: Stage::CreatePair(next) },
                ),
            }
        },
        Cmd::AddLiquidity { amount0_desired, amount1_desired, amount0_min, amount1_min } => {
            let inner = match stage {
                Stage::Begin => AddLiquidityStage::Start,
                Stage::AddLiquidity(t) => t,
                _ => {
                    return Err(AmmError::InvalidInstructionData);
                },
            };
            let r = add_liquidity(
                env,
                accounts,
                amount0_desired,
                amount1_desired,
                amount0_min,
                amount1_min,
                inner,
            );
            match r {
                Err(e) => Err(e),
                Ok(Step::Finish { writes }) => Ok(Step::Finish { writes }),
                Ok(Step::Invoke { cpis, next }) => Ok(
                    Step::Invoke { cpis, next: Stage::AddLiquidity(next) },
                ),
            }
        },
        Cmd::Swap { amount0_out, amount1_out } => {
            let inner = match stage {
                Stage::Begin => SwapStage::Start,
                Stage::Swap(t) => t,
                _ => {
                    return Err(AmmError::InvalidInstructionData);
                },
            };
            let r = swap(env, accounts, amount0_out, amount1_out, inner);
            match r {
                Err(e) => Err(e),
                Ok(Step::Finish { writes }) => Ok(Step::Finish { writes }),
                Ok(Step::Invoke { cpis, next }) => Ok(Step::Invoke { cpis, next: Stage::Swap(next) }),
            }
        },
        Cmd::RemoveLiquidity { liquidity, amount0_min, amount1_min } => {
            let inner = match stage {
                Stage::Begin => RemoveLiquidityStage::Start,
                Stage::RemoveLiquidity(t) => t,
                _ => {
                    return Err(AmmError::InvalidInstructionData);
                },
            };
            let r = remove_liquidity(env, accounts, liquidity, amount0_min, amount1_min, inner);
            match r {
                Err(e) => Err(e),
                Ok(Step::Finish { writes }) => Ok(Step::Finish { writes }),
                Ok(Step::Invoke { cpis, next }) => Ok(
                    Step::Invoke { cpis, next: Stage::RemoveLiquidity(next) },
                ),
            }
        },
        Cmd::Skim => {
            let inner = match stage {
                Stage::Begin => SkimStage::Start,
                Stage::Skim(t) => t,
                _ => {
                    return Err(AmmError::InvalidInstructionData);
                },
            };
            let r = skim(env, accounts, inner);
            match r {
                Err(e) => Err(e),
                Ok(Step::Finish { writes }) => Ok(Step::Finish { writes }),
                Ok(Step::Invoke { cpis, next }) => Ok(Step::Invoke { cpis, next: Stage::Skim(next) }),
            }
        },
        Cmd::Sync => match stage {
            Stage::Begin => {
                let writes = sync(env, accounts)?;
                Ok(Step::Finish { writes })
            },
            _ => Err(AmmError::InvalidInstructionData),
        },
    }
}

} // verus!
