//! A launchpad for crowdfunded token launches: the store of projects, and the
//! protocol that takes a funded project to a token and a liquidity pool on an
//! exchange, at most once, whatever else runs while the exchange is being called.

pub mod error;
pub mod launch;
pub mod principal;
pub mod project;
pub mod protocol;
pub mod store;
pub mod swap;
pub mod table;
