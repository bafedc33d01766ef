//! A registry that binds non-fungible tokens to structured plant metadata, and
//! a gate that lets only a token's owner or a fixed allow-list move a token.

pub mod plant;
pub mod registry;
pub mod gate;
pub mod token;
pub mod ledger;
pub mod contract;
