//! Off-chain operator core for a consensus-proof bridge: the planning,
//! search, relay and startup-guard logic that decides which consensus fact
//! to prove next and how its proof is driven to a confirmed transaction.

pub mod config;
pub mod contract;
pub mod errors;
pub mod planner;
pub mod relay;
pub mod request;
pub mod search;
pub mod vkey;
