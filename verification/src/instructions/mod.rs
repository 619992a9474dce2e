//! Instruction handlers.

pub mod lib;
pub mod sync;
pub mod swap;
pub mod skim;
pub mod remove_liquidity;
pub mod add_liquidity;
pub mod init_factory;
pub mod create_pair;
