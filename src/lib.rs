//! Escrow of "red packets": a creator deposits a sum, recipients claim
//! pre-computed slots once before a deadline, and a fee treasury collects a
//! small share of every deposit.
//!
//! The on-chain rules are modelled over plain values: records are byte
//! buffers with a fixed layout, and each instruction handler takes a snapshot
//! of the accounts it references and returns the ordered list of effects that
//! the host performs, or the error that aborts the instruction.

pub mod address;
pub mod bytes;
pub mod constants;
pub mod error;
pub mod state;
pub mod record;
pub mod rules;
pub mod account;
pub mod derive;
pub mod claim;
pub mod close;
pub mod create;
pub mod treasury;
pub mod entry;
pub mod client;
