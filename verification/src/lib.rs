//! Verified decoding of cross-contract token messages and the decision
//! logic of a linear vesting contract with a cliff.

pub mod cross_contract;

pub use cross_contract::handle_cross_contract_message;
pub mod vesting;
