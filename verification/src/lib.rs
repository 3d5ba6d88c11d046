//! Account validation, trade-state lifecycle and fee settlement for an
//! on-chain escrow marketplace.
//!
//! Every routine works on plain values: an account is a record of its
//! address, owner, balance, flags and bytes, and every effect on the ledger is
//! returned as the instruction that asks for it.
//!
//! - [`keys`], [`account`], [`errors`]: addresses, accounts, refusals.
//! - [`derivation`], [`programs`]: program-derived addresses and the
//!   addresses of the ledger's own programs.
//! - [`token`], [`metadata`]: what is read of token accounts, metadata and
//!   token records.
//! - [`validators`], [`notary`]: the guards before a state change.
//! - [`states`], [`trade_state`]: the program's records and their upgrade to
//!   the current schema.
//! - [`fees`], [`escrow`], [`instruction`]: the split of a sale, the
//!   accounts that hold funds, and the instructions that move them.

pub mod account;
pub mod derivation;
pub mod errors;
pub mod escrow;
pub mod fees;
pub mod instruction;
pub mod keys;
pub mod metadata;
pub mod notary;
pub mod programs;
pub mod states;
pub mod token;
pub mod trade_state;
pub mod validators;
