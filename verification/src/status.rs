//! The states of a claim.

use vstd::prelude::*;

verus! {

/// Where a claim stands in its lifecycle.
///
/// `UnderReview` and `Approved` are reserved: no operation produces them.
#[derive(Clone, Copy, Debug, PartialEq, Eq, Structural)]
pub enum ClaimStatus {
    Submitted,
    UnderReview,
    Verified,
    Rejected,
    Approved,
    Paid,
}

impl ClaimStatus {
    /// The status that a decision gives a claim.
    pub open spec fn decided(decision: bool) -> ClaimStatus {
        if decision {
            ClaimStatus::Verified
        } else {
            ClaimStatus::Rejected
        }
    }

    /// Whether the status is one of the two that no operation gives a claim.
    pub open spec fn is_reserved(self) -> bool {
        self == ClaimStatus::UnderReview || self == ClaimStatus::Approved
    }
}

} // verus!
