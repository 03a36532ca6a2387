//! Verified state machines for two Soroban registries: a credential registry
//! (issuers, issuance, revocation, verification) and a warehouse receipt
//! registry (certified issuers, issuance, transfer, redemption).
//!
//! The ledger host (storage, events, authorization, the ledger clock) is
//! outside this crate: each registry is a value of this crate that holds what
//! the contract keeps in storage, every operation takes the invocation's
//! context as plain values, and the events and storage keys that an operation
//! produces are recorded in the registry for the host side to publish and
//! persist.

use vstd::prelude::*;

pub mod address;
pub mod credential_registry;
pub mod credential_laws;
pub mod receipt_registry;
pub mod receipt_laws;

verus! {

} // verus!
