//! Authorization and state-transition logic for an affiliate-marketing ledger
//! program over an account-based store.
//!
//! The crate models ledger accounts as plain values, gives the two record
//! families (project and affiliate) a fixed, length-prefixed wire layout, and
//! verifies the six lifecycle operations against spec-level transition
//! functions. The only trusted outside call is the derivation of a program
//! address from its seeds.

pub mod wire;
pub mod keys;
pub mod error;
pub mod accounts;
pub mod utils;
pub mod projects;
pub mod affiliates;
pub mod instruction;
pub mod processor;
pub mod laws;
