//! Why an operation was refused.

use vstd::prelude::*;

verus! {

/// The reasons for which an operation is refused. A refused operation leaves
/// the store as it found it.
#[derive(Clone, Copy, Debug, PartialEq, Eq, Structural)]
pub enum ClaimError {
    /// No policy, or no claim, has the identifier that was given.
    NotFound,
    /// The caller does not hold the policy.
    Unauthorized,
    /// A required text or list is empty, or a required amount is zero.
    InvalidInput,
    /// The claim asks for more than the policy covers, or the policy is
    /// cancelled.
    Ineligible,
    /// Payment was asked for a claim that is not verified.
    InvalidTransition,
    /// A change was asked of a cancelled policy.
    PolicyInactive,
}

} // verus!
