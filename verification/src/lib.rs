//! Core engine of a parametric insurance protocol.
//!
//! External parties register protocols to be insured, buy time-boxed coverage
//! policies funded by premiums, and a pool of capital providers underwrites
//! claims in exchange for yield. This crate holds the verified bookkeeping:
//! the capital pool ledger, the claims settlement state machine, the policy
//! ledger, the protocol registry, and the risk-scoring formulas that drive
//! premium pricing.
//!
//! Durable storage, caller authentication, the clock, and the actual movement
//! of funds are the host's business: operations here take already-verified
//! caller identities and the current time as plain values, and return a
//! [`transfer::TransferRequest`] describing the value transfer the host must
//! perform. The host is expected to run each operation all-or-nothing: on any
//! error the functions here leave every record unchanged, and a failed
//! external transfer means the host discards the staged records.

pub mod capital_management;
pub mod claims;
pub mod errors;
pub mod policy;
pub mod protocol;
pub mod risk_assessment;
pub mod transfer;
