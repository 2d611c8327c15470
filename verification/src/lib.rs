//! An access-controlled on-ledger state holder.
//!
//! A fixed-size record (a `u32` counter plus two 32-byte party identities)
//! lives in a host-managed storage unit.  An `Instantiate` request writes a
//! fresh record; a `ChangeState` request overwrites the counter, and only a
//! signer whose identity matches one of the two recorded parties may do so.

pub mod account;
pub mod codec;
pub mod errors;
pub mod identity;
pub mod instructions;
pub mod processor;
pub mod state;
