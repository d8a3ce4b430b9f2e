//! A time-based linear payment-streaming escrow.
//!
//! A sender deposits funds that vest continuously to a receiver between a
//! start and an end time. The receiver may withdraw the vested-but-unclaimed
//! portion at any time, and the sender may close the arrangement, settling
//! all outstanding obligations.
//!
//! The crate is organised in three layers:
//! - `state`: the data model (identities, accounts, the stream record and
//!   the instruction payloads) and the error taxonomy;
//! - `engine`: the pure arithmetic core computing vested and withdrawable
//!   amounts and the final settlement split;
//! - `processor`: instruction decoding, validation and the balance/state
//!   mutations, specified over plain account values supplied by the host.

pub mod codec;
pub mod engine;
pub mod instruction;
pub mod processor;
pub mod state;
