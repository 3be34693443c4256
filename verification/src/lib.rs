//! A two-player, turn-based card-battle engine.
//!
//! `state` holds the match record, its mathematical model and the rules
//! that move it from one position to the next; `instructions` holds the
//! entry points that decide who may act and how a finished match is
//! settled; `keys` holds what the library takes on trust of the ledger's
//! account keys; `errors` lists every way an action can be refused.

#![allow(unused_imports)]

pub mod errors;
pub mod instructions;
pub mod keys;
pub mod state;
