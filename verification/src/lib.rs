//! Shared protocol for fund-custody (escrow) contracts: the error taxonomy,
//! the custody state machine, pause and admin controls, and the interface
//! version that callers check before they link against an implementation.

pub mod address;
pub mod admin;
pub mod bounty;
pub mod bounty_laws;
pub mod bounty_model;
pub mod error;
pub mod host;
pub mod pause;
pub mod program;
pub mod program_laws;
pub mod program_model;
pub mod status;
pub mod transfer;
pub mod version;
