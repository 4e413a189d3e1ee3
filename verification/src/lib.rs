//! Verified core of a subscription vault: storage-key registry, error codes,
//! amount normalisation, vault accounting and the dispute / chargeback workflow.

pub mod types;
pub mod records;
pub mod events;
pub mod table;
pub mod state;
pub mod accounting;
pub mod dispute;
pub mod invariants;
pub mod amounts;
pub mod coupon;
pub mod escrow;
pub mod dispute_trace;
pub mod dispute_laws;
