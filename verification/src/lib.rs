//! A minimal on-ledger voting core: an authority creates a proposal, registers
//! a fixed set of eligible voters, and those voters cast up/down votes that
//! are tallied into running counters. The hosting ledger runtime (signature
//! checking, persistent storage, atomic execution) is an external
//! collaborator; this crate holds the state-transition logic only.

pub mod addressing;
pub mod capacity;
pub mod errors;
pub mod identity;
pub mod proposal;
pub mod registry;
pub mod tally;
