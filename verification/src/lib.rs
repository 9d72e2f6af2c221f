//! Conditional, fee-bearing, multi-party escrow for cross-border payments,
//! with the currency conversion and compliance gating needed to settle them.
//!
//! Every operation is a function of the stored state, the authenticated
//! caller and the current ledger time; the calling layer authenticates the
//! caller, asks the oracles, moves the funds and persists the state.
//!
//! A party is known by the text of its address. The approvers of an escrow
//! and the escrows named in a batch come in collections of the ledger host,
//! which `host` declares; everything else is held in plain values.

pub mod address;
pub mod aml;
pub mod batches;
pub mod compliance;
pub mod conditions;
pub mod error;
pub mod escrow;
pub mod fees;
pub mod gating;
pub mod host;
pub mod invoicing;
pub mod kyc;
pub mod math;
pub mod multi_party;
pub mod oracle;
pub mod payment_escrow;
pub mod rate_limit;
pub mod registry;
pub mod remittance_hub;
pub mod settlement;
pub mod upgradeable;
