//! A single-asset custodial vault.
//!
//! An owner deposits a fungible asset into pooled custody and receives a
//! one-to-one transferable claim token in return; redeeming claims withdraws
//! the underlying asset. The library is the accounting and authorization
//! state machine: an always-consistent ledger of deposited value under
//! checked arithmetic, owner-gated custody movements, and all-or-nothing
//! application of each multi-step operation.
//!
//! The pieces, leaves first: [`errors`] is the shared failure vocabulary;
//! [`authority`] derives each vault's keyless signing identity; [`ledger`]
//! models the external asset and claim-token ledgers the vault moves value
//! on; [`state`] holds the vault record, its registry, and the operations
//! `initialize_vault`, `deposit` and `withdraw`, together with the proved
//! conservation law.

pub mod authority;
pub mod errors;
pub mod ledger;
pub mod state;
