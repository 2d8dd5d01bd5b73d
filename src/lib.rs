//! Block and state storage for a Starknet-style sequencer: an in-memory
//! provider with versioned state, genesis bootstrap, finality tracking and
//! the read-routing rules of a forked provider.
pub mod block;
pub mod commands;
pub mod erc;
pub mod felt;
pub mod fork;
pub mod genesis;
pub mod provider;
pub mod state;
pub mod test_utils;
pub mod traits;
