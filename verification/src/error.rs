//! The errors that the program reports to the runtime.

use vstd::prelude::*;

verus! {

/// Why an instruction was refused. Each variant stands for the runtime error of
/// the same name.
#[derive(Clone, Copy, Debug, PartialEq, Eq, Structural)]
pub enum AmmError {
    InvalidArgument,
    InvalidInstructionData,
    InvalidAccountData,
    AccountAlreadyInitialized,
    UninitializedAccount,
    NotEnoughAccountKeys,
    MissingRequiredSignature,
    IllegalOwner,
    IncorrectProgramId,
    InvalidSeeds,
    ArithmeticOverflow,
    UnsupportedSysvar,
    BorshIoError,
}

} // verus!
