//! Weighted voting for a decentralized organization: governance proposals,
//! project contributions, cross-chain balance proofs and voting power.

pub mod contributions;
pub mod cross_chain;
pub mod error;
pub mod governance;
pub mod mana_structs;
pub mod proposals;
pub mod voting;
pub mod voting_power;
