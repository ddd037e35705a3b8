//! The operations that read the store. They change nothing, and anyone may
//! ask.

use crate::claim::{Claim, HistoryEntry};
use crate::error::ClaimError;
use crate::policy::Policy;
use crate::processor::InsuranceClaimProcessor;
use vstd::prelude::*;

verus! {

/// A copy of the claim `claim_id`, or `NotFound` if there is no such claim.
pub fn get_claim(store: &InsuranceClaimProcessor, claim_id: String) -> (result: Result<
    Claim,
    ClaimError,
>)
    ensures
        match result {
            Ok(claim) => store@.claims.contains_key(claim_id@) && claim@
                == store@.claims[claim_id@],
            Err(error) => error == ClaimError::NotFound && !store@.claims.contains_key(claim_id@),
        },
{
    match store.claim(claim_id.as_str()) {
        Some(claim) => Ok(claim.clone()),
        None => Err(ClaimError::NotFound),
    }
}

/// A copy of the policy `policy_id`, or `NotFound` if there is no such
/// policy.
pub fn get_policy(store: &InsuranceClaimProcessor, policy_id: String) -> (result: Result<
    Policy,
    ClaimError,
>)
    ensures
        match result {
            Ok(policy) => store@.policies.contains_key(policy_id@) && policy@
                == store@.policies[policy_id@],
            Err(error) => error == ClaimError::NotFound && !store@.policies.contains_key(
                policy_id@,
            ),
        },
{
    match store.policy(policy_id.as_str()) {
        Some(policy) => Ok(policy.clone()),
        None => Err(ClaimError::NotFound),
    }
}

/// The audit trail of the claim `claim_id`, oldest line first, or `NotFound`
/// if there is no such claim.
pub fn get_claim_history(store: &InsuranceClaimProcessor, claim_id: String) -> (result: Result<
    Vec<HistoryEntry>,
    ClaimError,
>)
    ensures
        match result {
            Ok(history) => store@.claims.contains_key(claim_id@) && history.deep_view()
                == store@.claims[claim_id@].history,
            Err(error) => error == ClaimError::NotFound && !store@.claims.contains_key(claim_id@),
        },
{
    match store.claim(claim_id.as_str()) {
        Some(claim) => Ok(claim.history().clone()),
        None => Err(ClaimError::NotFound),
    }
}

} // verus!
