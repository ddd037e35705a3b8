//! The rules of an insurance claims desk: policies, the claims filed against
//! them, and the lifecycle that each claim moves through.
//!
//! A store (`InsuranceClaimProcessor`) holds the policies and the claims.
//! The operations in `update` change it and those in `query` read it; each
//! is told who calls and what time it is, and finds out neither by itself.
//! `rules` says as mathematics what each operation decides and changes, and
//! `laws` proves what follows for every store and every row of operations:
//! a cancelled policy stays cancelled, an audit trail only grows and ends
//! with the claim's status, and no identifier is handed out twice.

pub mod claim;
pub mod error;
pub mod ids;
pub mod laws;
pub mod policy;
pub mod principal;
pub mod processor;
pub mod query;
pub mod rules;
pub mod status;
pub mod update;

pub use claim::{Claim, HistoryEntry};
pub use error::ClaimError;
pub use policy::Policy;
pub use processor::InsuranceClaimProcessor;
pub use status::ClaimStatus;
