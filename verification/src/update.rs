//! The operations that change the store.
//!
//! Each one takes the store, the caller's identity and the time of the call
//! where it reads them, and then what the caller asks for. It makes its
//! checks in order, changes the store only if all of them pass, and says in
//! its result which check failed.

use crate::claim::Claim;
use crate::error::ClaimError;
use crate::ids::{claim_id_text, policy_id_text};
use crate::policy::Policy;
use crate::processor::InsuranceClaimProcessor;
use crate::rules::{
    after_deactivate, after_process, after_register, after_review, after_submit,
    after_update_coverage, deactivate_refusal, issued_id, process_refusal, register_refusal,
    review_refusal, step, submit_refusal, update_coverage_refusal, Operation,
};
use crate::status::ClaimStatus;
use candid::Principal;
use vstd::prelude::*;
use vstd::string::*;

verus! {

/// Files a claim under the policy `policy_id`, on behalf of `caller`, at
/// time `now`.
///
/// The claim is refused with `InvalidInput` if the policy identifier, the
/// description or the list of documents is empty; else with `NotFound` if
/// there is no such policy; else with `Unauthorized` if `caller` does not
/// hold the policy; else with `Ineligible` if the policy is cancelled or
/// covers less than the claim asks for. Otherwise the claim is stored under
/// the next claim identifier, with status `Submitted`, and that identifier
/// is returned.
pub fn submit_claim(
    store: &mut InsuranceClaimProcessor,
    caller: Principal,
    now: u64,
    policy_id: String,
    claim_amount: u64,
    description: String,
    supporting_documents: Vec<String>,
) -> (result: Result<String, ClaimError>)
    requires
        old(store)@.wf(),
        old(store)@.claim_counter < u64::MAX,
    ensures
        final(store)@.wf(),
        match submit_refusal(
            old(store)@,
            caller,
            now,
            policy_id@,
            claim_amount,
            description@,
            supporting_documents.deep_view(),
        ) {
            Some(error) => result == Err::<String, ClaimError>(error) && final(store)@ == old(
                store,
            )@,
            None => {
                &&& result is Ok
                &&& result->Ok_0@ == claim_id_text(old(store)@.claim_counter + 1)
                &&& !old(store)@.claims.contains_key(result->Ok_0@)
                &&& final(store)@ == after_submit(
                    old(store)@,
                    caller,
                    now,
                    policy_id@,
                    claim_amount,
                    description@,
                    supporting_documents.deep_view(),
                )
            },
        },
        final(store)@ == step(
            old(store)@,
            (Operation::SubmitClaim {
                caller,
                now,
                policy_id: policy_id@,
                claim_amount,
                description: description@,
                supporting_documents: supporting_documents.deep_view(),
            }),
        ),
        issued_id(
            old(store)@,
            (Operation::SubmitClaim {
                caller,
                now,
                policy_id: policy_id@,
                claim_amount,
                description: description@,
                supporting_documents: supporting_documents.deep_view(),
            }),
        ) == match result {
            Ok(id) => Some(id@),
            Err(_) => None,
        },
        // Whoever does not hold the policy is turned away.
        policy_id@.len() > 0 && description@.len() > 0 && supporting_documents@.len() > 0 && old(
            store,
        )@.policies.contains_key(policy_id@) && old(store)@.policies[policy_id@].policy_holder
            != caller ==> result == Err::<String, ClaimError>(ClaimError::Unauthorized),
        // The holder who asks for more than the policy covers is turned away.
        policy_id@.len() > 0 && description@.len() > 0 && supporting_documents@.len() > 0 && old(
            store,
        )@.policies.contains_key(policy_id@) && old(store)@.policies[policy_id@].policy_holder
            == caller && claim_amount > old(store)@.policies[policy_id@].coverage_amount
            ==> result == Err::<String, ClaimError>(ClaimError::Ineligible),
{
    if policy_id.as_str().is_empty() || description.as_str().is_empty()
        || supporting_documents.len() == 0 {
        return Err(ClaimError::InvalidInput);
    }
    let policy = match store.policy(policy_id.as_str()) {
        Some(policy) => policy.clone(),
        None => {
            return Err(ClaimError::NotFound);
        },
    };
    if policy.policy_holder() != caller {
        return Err(ClaimError::Unauthorized);
    }
    let candidate = Claim::submitted(
        caller,
        String::from_str(policy.policy_type()),
        claim_amount,
        description,
        supporting_documents,
        now,
    );
    if !InsuranceClaimProcessor::verify_claim_eligibility(&candidate, &policy) {
        return Err(ClaimError::Ineligible);
    }
    let id = store.generate_claim_id();
    let claim = candidate.with_id(id.clone());
    store.put_claim(claim);
    Ok(id)
}

/// Records the decision on the claim `claim_id`, at time `now`.
///
/// The review is refused with `NotFound` if there is no such claim.
/// Otherwise the claim becomes `Verified` if `decision` is true and
/// `Rejected` if it is false, whatever status it had; one line with the new
/// status, `now` and `notes` is added to the end of its trail; and the new
/// status is returned.
pub fn review_claim(
    store: &mut InsuranceClaimProcessor,
    now: u64,
    claim_id: String,
    decision: bool,
    notes: String,
) -> (result: Result<ClaimStatus, ClaimError>)
    requires
        old(store)@.wf(),
    ensures
        final(store)@.wf(),
        match review_refusal(old(store)@, claim_id@) {
            Some(error) => result == Err::<ClaimStatus, ClaimError>(error) && final(store)@ == old(
                store,
            )@,
            None => {
                &&& result == Ok::<ClaimStatus, ClaimError>(ClaimStatus::decided(decision))
                &&& final(store)@ == after_review(old(store)@, now, claim_id@, decision, notes@)
            },
        },
        final(store)@ == step(
            old(store)@,
            (Operation::ReviewClaim { now, claim_id: claim_id@, decision, notes: notes@ }),
        ),
{
    let mut claim = match store.claim(claim_id.as_str()) {
        Some(claim) => claim.clone(),
        None => {
            return Err(ClaimError::NotFound);
        },
    };
    let status = if decision {
        ClaimStatus::Verified
    } else {
        ClaimStatus::Rejected
    };
    claim.record(status, now, notes);
    store.put_claim(claim);
    Ok(status)
}

/// Pays the claim `claim_id`, at time `now`.
///
/// The payment is refused with `NotFound` if there is no such claim, else
/// with `InvalidTransition` unless the claim is `Verified`: a claim that is
/// `Paid` already is not paid again. Otherwise the claim becomes `Paid`, and
/// one line that says so is added to the end of its trail.
pub fn process_claim(store: &mut InsuranceClaimProcessor, now: u64, claim_id: String) -> (result:
    Result<(), ClaimError>)
    requires
        old(store)@.wf(),
    ensures
        final(store)@.wf(),
        match process_refusal(old(store)@, claim_id@) {
            Some(error) => result == Err::<(), ClaimError>(error) && final(store)@ == old(store)@,
            None => result is Ok && final(store)@ == after_process(old(store)@, now, claim_id@),
        },
        final(store)@ == step(old(store)@, (Operation::ProcessClaim { now, claim_id: claim_id@ })),
        // A claim is paid exactly when it is verified.
        old(store)@.claims.contains_key(claim_id@) ==> (result is Ok <==> old(
            store,
        )@.claims[claim_id@].status == ClaimStatus::Verified),
        old(store)@.claims.contains_key(claim_id@) && old(store)@.claims[claim_id@].status
            != ClaimStatus::Verified ==> result == Err::<(), ClaimError>(
            ClaimError::InvalidTransition,
        ),
{
    let mut claim = match store.claim(claim_id.as_str()) {
        Some(claim) => claim.clone(),
        None => {
            return Err(ClaimError::NotFound);
        },
    };
    if claim.status() != ClaimStatus::Verified {
        return Err(ClaimError::InvalidTransition);
    }
    claim.record(ClaimStatus::Paid, now, String::from_str("Claim paid"));
    store.put_claim(claim);
    Ok(())
}

/// Registers a policy of type `policy_type` that covers `coverage_amount`,
/// held by `caller`, at time `now`.
///
/// The registration is refused with `InvalidInput` if the type is empty or
/// the coverage is zero. Otherwise the policy is stored under the next
/// policy identifier, active, and that identifier is returned.
pub fn register_policy(
    store: &mut InsuranceClaimProcessor,
    caller: Principal,
    now: u64,
    policy_type: String,
    coverage_amount: u64,
) -> (result: Result<String, ClaimError>)
    requires
        old(store)@.wf(),
        old(store)@.policy_counter < u64::MAX,
    ensures
        final(store)@.wf(),
        match register_refusal(policy_type@, coverage_amount) {
            Some(error) => result == Err::<String, ClaimError>(error) && final(store)@ == old(
                store,
            )@,
            None => {
                &&& result is Ok
                &&& result->Ok_0@ == policy_id_text(old(store)@.policy_counter + 1)
                &&& !old(store)@.policies.contains_key(result->Ok_0@)
                &&& final(store)@ == after_register(
                    old(store)@,
                    caller,
                    now,
                    policy_type@,
                    coverage_amount,
                )
            },
        },
        final(store)@ == step(
            old(store)@,
            (Operation::RegisterPolicy {
                caller,
                now,
                policy_type: policy_type@,
                coverage_amount,
            }),
        ),
        issued_id(
            old(store)@,
            (Operation::RegisterPolicy {
                caller,
                now,
                policy_type: policy_type@,
                coverage_amount,
            }),
        ) == match result {
            Ok(id) => Some(id@),
            Err(_) => None,
        },
{
    if policy_type.as_str().is_empty() || coverage_amount == 0 {
        return Err(ClaimError::InvalidInput);
    }
    let policy_id = store.generate_policy_id();
    let new_policy = Policy::registered(policy_id.clone(), caller, policy_type, coverage_amount, now);
    store.put_policy(new_policy);
    Ok(policy_id)
}

/// Cancels the policy `policy_id`, on behalf of `caller`, at time `now`.
///
/// The cancellation is refused with `NotFound` if there is no such policy,
/// else with `Unauthorized` if `caller` does not hold it. Otherwise the
/// policy is inactive from now on and `now` is the time of its last change;
/// a policy that was cancelled before is cancelled again without complaint.
pub fn deactivate_policy(
    store: &mut InsuranceClaimProcessor,
    caller: Principal,
    now: u64,
    policy_id: String,
) -> (result: Result<(), ClaimError>)
    requires
        old(store)@.wf(),
    ensures
        final(store)@.wf(),
        match deactivate_refusal(old(store)@, caller, policy_id@) {
            Some(error) => result == Err::<(), ClaimError>(error) && final(store)@ == old(store)@,
            None => result is Ok && final(store)@ == after_deactivate(old(store)@, now, policy_id@),
        },
        final(store)@ == step(
            old(store)@,
            (Operation::DeactivatePolicy { caller, now, policy_id: policy_id@ }),
        ),
{
    let mut policy = match store.policy(policy_id.as_str()) {
        Some(policy) => policy.clone(),
        None => {
            return Err(ClaimError::NotFound);
        },
    };
    if policy.policy_holder() != caller {
        return Err(ClaimError::Unauthorized);
    }
    policy.cancel(now);
    store.put_policy(policy);
    Ok(())
}

/// Sets what the policy `policy_id` covers to `new_coverage`, on behalf of
/// `caller`, at time `now`.
///
/// The change is refused with `NotFound` if there is no such policy, else
/// with `Unauthorized` if `caller` does not hold it, else with
/// `InvalidInput` if `new_coverage` is zero, else with `PolicyInactive` if
/// the policy is cancelled. Otherwise the policy covers `new_coverage` and
/// `now` is the time of its last change. Claims that were accepted before
/// stay as they are.
pub fn update_policy_coverage(
    store: &mut InsuranceClaimProcessor,
    caller: Principal,
    now: u64,
    policy_id: String,
    new_coverage: u64,
) -> (result: Result<(), ClaimError>)
    requires
        old(store)@.wf(),
    ensures
        final(store)@.wf(),
        match update_coverage_refusal(old(store)@, caller, policy_id@, new_coverage) {
            Some(error) => result == Err::<(), ClaimError>(error) && final(store)@ == old(store)@,
            None => result is Ok && final(store)@ == after_update_coverage(
                old(store)@,
                now,
                policy_id@,
                new_coverage,
            ),
        },
        final(store)@ == step(
            old(store)@,
            (Operation::UpdatePolicyCoverage { caller, now, policy_id: policy_id@, new_coverage }),
        ),
{
    let mut policy = match store.policy(policy_id.as_str()) {
        Some(policy) => policy.clone(),
        None => {
            return Err(ClaimError::NotFound);
        },
    };
    if policy.policy_holder() != caller {
        return Err(ClaimError::Unauthorized);
    }
    if new_coverage == 0 {
        return Err(ClaimError::InvalidInput);
    }
    if !policy.active() {
        return Err(ClaimError::PolicyInactive);
    }
    policy.set_coverage(new_coverage, now);
    store.put_policy(policy);
    Ok(())
}

} // verus!
