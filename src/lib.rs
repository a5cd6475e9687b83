//! An on-chain registry of agents: each signing key owns at most one fixed-size
//! record holding a display name and an inbox URL, stored at an address derived
//! from that key.
//!
//! The library holds the record codec, the instruction payload parsers, the
//! account checks, the address validation and the three state transitions
//! (register, update, deregister). Each transition is a function from the
//! accounts and payload of one call to the action that the host must carry out.

pub mod accounts;
pub mod address;
pub mod codec;
pub mod deregister_agent;
pub mod errors;
pub mod instruction;
pub mod pda;
pub mod processor;
pub mod register_agent;
pub mod state;
pub mod update_agent;
