//! A token-gated governance and treasury engine.
//!
//! Participants purchase a fungible credit from a treasury with a base
//! currency, spend credits to register proposals and to vote (each action
//! escrows credits into a treasury-held account), and a winner is declared by
//! comparing tallies after a deadline.  Every instruction is a pure, total
//! function of its explicit arguments and the persisted state: storage
//! locations are derived deterministically from semantic seeds, a declarative
//! gate validates every inbound account reference before any mutation, and a
//! rejected instruction leaves the state untouched.

pub mod addr;
pub mod contexts;
pub mod errors;
pub mod events;
pub mod gate;
pub mod handlers;
pub mod laws;
pub mod ledger;
pub mod records;
pub mod state;
pub mod step;
