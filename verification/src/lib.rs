//! A two-party conditional token custody (escrow) mechanism.
//!
//! A depositor locks a fixed amount of tokens for a designated recipient.
//! The recipient may withdraw the full amount once the record's time gate
//! has elapsed; every transition is guarded by the caller's identity and
//! by the record's status, which moves one way from `Pending` to a
//! terminal state.
//!
//! The crate is organised as a pure state machine over the persisted
//! [`record::Escrow`] record: the surrounding runtime supplies the clock
//! reading and performs the actual token transfers, while every decision
//! (who may do what, and when) is made here.

pub mod codec;
pub mod derivation;
pub mod errors;
pub mod machine;
pub mod record;
