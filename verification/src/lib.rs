//! A constant-product automated market maker for the Solana runtime.
//!
//! The library holds the pricing rules, the account checks and the state codecs
//! of the program; the runtime glue (entrypoint, cross-program invocations,
//! sysvar reads) drives the phase functions defined here.

pub mod amm;
pub mod chain;
pub mod cmd;
pub mod constants;
pub mod error;
pub mod instructions;
pub mod key;
pub mod laws;
pub mod math;
pub mod state;
pub mod processor;

pub use cmd::Cmd;
pub use processor::process_instruction;
