//! On-chain escrow for atomic two-party token swaps.
//!
//! A maker opens a trade by depositing tokens of one mint into a vault and
//! recording how much of another mint they want in return; any taker may
//! settle the trade by paying that amount, atomically receiving the vault's
//! contents. All persistent state lives in caller-supplied byte buffers, so
//! every operation re-validates the accounts it is handed before mutating
//! anything.

pub mod accounts;
pub mod error;
pub mod ids;
pub mod laws;
pub mod make;
pub mod pda;
pub mod process;
pub mod state;
pub mod take;
