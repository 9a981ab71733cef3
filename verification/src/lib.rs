//! A verified model of a small family of fund-custody contracts.
//!
//! The core is an escrow engine: a contract holds a single fungible-asset
//! deposit made by a payer (the patient) until the payer confirms completion,
//! at which point the funds go to the payee (the specialist); a designated
//! arbiter may instead force either settlement while funds are held. Two
//! companion contracts share the same ledger collaborator: a reward
//! distributor (one admin pays rewards out of the contract's custody) and a
//! per-service invoicing contract (an admin raises invoices that patients pay).
//!
//! The host environment that authenticates callers, persists contract records
//! and executes token transfers is modeled by plain values: an operation takes
//! the authenticated caller's address and a mutable in-memory ledger, and every
//! state change and emitted notification is stated exactly in its contract.

pub mod address;
pub mod distributor;
pub mod escrow;
pub mod ledger;
pub mod payment;
