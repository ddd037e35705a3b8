//! What each operation decides and what it changes, as mathematics.
//!
//! For each operation there is a function that gives the reason for which it
//! is refused, if it is, and one that gives the store after it was accepted.
//! The checks of an operation are made in a fixed order, the first that fails
//! decides the reason, and a refused operation changes nothing.

use crate::claim::{payment_notes, ClaimView};
use crate::error::ClaimError;
use crate::ids::{claim_id_text, policy_id_text};
use crate::policy::PolicyView;
use crate::processor::{is_eligible, StoreView};
use crate::status::ClaimStatus;
use candid::Principal;
use vstd::prelude::*;

verus! {

/// Why a registration is refused: the policy type is empty or the coverage
/// is zero.
pub open spec fn register_refusal(policy_type: Seq<char>, coverage_amount: u64) -> Option<
    ClaimError,
> {
    if policy_type.len() == 0 || coverage_amount == 0 {
        Some(ClaimError::InvalidInput)
    } else {
        None
    }
}

/// The store after `caller` registered a policy: the next policy identifier
/// is taken, and under it stands a new active policy that `caller` holds.
pub open spec fn after_register(
    store: StoreView,
    caller: Principal,
    now: u64,
    policy_type: Seq<char>,
    coverage_amount: u64,
) -> StoreView {
    let id = policy_id_text(store.policy_counter + 1);
    StoreView {
        policies: store.policies.insert(
            id,
            PolicyView::registered(id, caller, policy_type, coverage_amount, now),
        ),
        policy_counter: store.policy_counter + 1,
        ..store
    }
}

/// Why a cancellation is refused: there is no such policy, or `caller` does
/// not hold it. A policy that is cancelled already can be cancelled again.
pub open spec fn deactivate_refusal(store: StoreView, caller: Principal, policy_id: Seq<char>)
    -> Option<ClaimError> {
    if !store.policies.contains_key(policy_id) {
        Some(ClaimError::NotFound)
    } else if store.policies[policy_id].policy_holder != caller {
        Some(ClaimError::Unauthorized)
    } else {
        None
    }
}

/// The store after the policy was cancelled at time `now`.
pub open spec fn after_deactivate(store: StoreView, now: u64, policy_id: Seq<char>) -> StoreView {
    StoreView {
        policies: store.policies.insert(policy_id, store.policies[policy_id].cancelled(now)),
        ..store
    }
}

/// Why a change of coverage is refused: there is no such policy, `caller`
/// does not hold it, the new coverage is zero, or the policy is cancelled.
pub open spec fn update_coverage_refusal(
    store: StoreView,
    caller: Principal,
    policy_id: Seq<char>,
    new_coverage: u64,
) -> Option<ClaimError> {
    if !store.policies.contains_key(policy_id) {
        Some(ClaimError::NotFound)
    } else if store.policies[policy_id].policy_holder != caller {
        Some(ClaimError::Unauthorized)
    } else if new_coverage == 0 {
        Some(ClaimError::InvalidInput)
    } else if !store.policies[policy_id].active {
        Some(ClaimError::PolicyInactive)
    } else {
        None
    }
}

/// The store after the policy's coverage was set at time `now`.
pub open spec fn after_update_coverage(
    store: StoreView,
    now: u64,
    policy_id: Seq<char>,
    new_coverage: u64,
) -> StoreView {
    StoreView {
        policies: store.policies.insert(
            policy_id,
            store.policies[policy_id].with_coverage(new_coverage, now),
        ),
        ..store
    }
}

/// The claim that a submission under the policy `policy_id` would create,
/// before it has an identifier. Its policy type is copied from the policy.
pub open spec fn candidate_claim(
    store: StoreView,
    caller: Principal,
    now: u64,
    policy_id: Seq<char>,
    claim_amount: u64,
    description: Seq<char>,
    supporting_documents: Seq<Seq<char>>,
) -> ClaimView {
    ClaimView::submitted(
        caller,
        store.policies[policy_id].policy_type,
        claim_amount,
        description,
        supporting_documents,
        now,
    )
}

/// Why a submission is refused: the policy identifier, the description or
/// the list of documents is empty; there is no such policy; `caller` does
/// not hold it; or the policy does not cover the claim.
pub open spec fn submit_refusal(
    store: StoreView,
    caller: Principal,
    now: u64,
    policy_id: Seq<char>,
    claim_amount: u64,
    description: Seq<char>,
    supporting_documents: Seq<Seq<char>>,
) -> Option<ClaimError> {
    if policy_id.len() == 0 || description.len() == 0 || supporting_documents.len() == 0 {
        Some(ClaimError::InvalidInput)
    } else if !store.policies.contains_key(policy_id) {
        Some(ClaimError::NotFound)
    } else if store.policies[policy_id].policy_holder != caller {
        Some(ClaimError::Unauthorized)
    } else if !is_eligible(
        candidate_claim(
            store,
            caller,
            now,
            policy_id,
            claim_amount,
            description,
            supporting_documents,
        ),
        store.policies[policy_id],
    ) {
        Some(ClaimError::Ineligible)
    } else {
        None
    }
}

/// The store after the claim was submitted: the next claim identifier is
/// taken, and under it stands the new claim.
pub open spec fn after_submit(
    store: StoreView,
    caller: Principal,
    now: u64,
    policy_id: Seq<char>,
    claim_amount: u64,
    description: Seq<char>,
    supporting_documents: Seq<Seq<char>>,
) -> StoreView {
    let id = claim_id_text(store.claim_counter + 1);
    StoreView {
        claims: store.claims.insert(
            id,
            candidate_claim(
                store,
                caller,
                now,
                policy_id,
                claim_amount,
                description,
                supporting_documents,
            ).with_id(id),
        ),
        claim_counter: store.claim_counter + 1,
        ..store
    }
}

/// Why a review is refused: there is no such claim. Whatever status the
/// claim has, it can be reviewed.
pub open spec fn review_refusal(store: StoreView, claim_id: Seq<char>) -> Option<ClaimError> {
    if !store.claims.contains_key(claim_id) {
        Some(ClaimError::NotFound)
    } else {
        None
    }
}

/// The store after the claim was reviewed at time `now`: the claim is
/// `Verified` if the decision was in its favour and `Rejected` if not, and
/// its trail ends with a line that says so and holds the notes that came with the decision.
pub open spec fn after_review(
    store: StoreView,
    now: u64,
    claim_id: Seq<char>,
    decision: bool,
    notes: Seq<char>,
) -> StoreView {
    StoreView {
        claims: store.claims.insert(
            claim_id,
            store.claims[claim_id].recorded(ClaimStatus::decided(decision), now, notes),
        ),
        ..store
    }
}

/// Why a payment is refused: there is no such claim, or the claim is not
/// `Verified`.
pub open spec fn process_refusal(store: StoreView, claim_id: Seq<char>) -> Option<ClaimError> {
    if !store.claims.contains_key(claim_id) {
        Some(ClaimError::NotFound)
    } else if store.claims[claim_id].status != ClaimStatus::Verified {
        Some(ClaimError::InvalidTransition)
    } else {
        None
    }
}

/// The store after the claim was paid at time `now`: the claim is `Paid`,
/// and its trail ends with a line that says so.
pub open spec fn after_process(store: StoreView, now: u64, claim_id: Seq<char>) -> StoreView {
    StoreView {
        claims: store.claims.insert(
            claim_id,
            store.claims[claim_id].recorded(ClaimStatus::Paid, now, payment_notes()),
        ),
        ..store
    }
}

/// A request to change the store, with the identity of the caller and the
/// time at which it is made where the operation reads them.
pub enum Operation {
    RegisterPolicy { caller: Principal, now: u64, policy_type: Seq<char>, coverage_amount: u64 },
    DeactivatePolicy { caller: Principal, now: u64, policy_id: Seq<char> },
    UpdatePolicyCoverage { caller: Principal, now: u64, policy_id: Seq<char>, new_coverage: u64 },
    SubmitClaim {
        caller: Principal,
        now: u64,
        policy_id: Seq<char>,
        claim_amount: u64,
        description: Seq<char>,
        supporting_documents: Seq<Seq<char>>,
    },
    ReviewClaim { now: u64, claim_id: Seq<char>, decision: bool, notes: Seq<char> },
    ProcessClaim { now: u64, claim_id: Seq<char> },
}

/// Why `operation` is refused in `store`, if it is.
pub open spec fn refusal(store: StoreView, operation: Operation) -> Option<ClaimError> {
    match operation {
        Operation::RegisterPolicy { caller, now, policy_type, coverage_amount } => register_refusal(
            policy_type,
            coverage_amount,
        ),
        Operation::DeactivatePolicy { caller, now, policy_id } => deactivate_refusal(
            store,
            caller,
            policy_id,
        ),
        Operation::UpdatePolicyCoverage {
            caller,
            now,
            policy_id,
            new_coverage,
        } => update_coverage_refusal(store, caller, policy_id, new_coverage),
        Operation::SubmitClaim {
            caller,
            now,
            policy_id,
            claim_amount,
            description,
            supporting_documents,
        } => submit_refusal(
            store,
            caller,
            now,
            policy_id,
            claim_amount,
            description,
            supporting_documents,
        ),
        Operation::ReviewClaim { now, claim_id, decision, notes } => review_refusal(
            store,
            claim_id,
        ),
        Operation::ProcessClaim { now, claim_id } => process_refusal(store, claim_id),
    }
}

/// The store after `operation` was accepted in `store`.
pub open spec fn accepted(store: StoreView, operation: Operation) -> StoreView {
    match operation {
        Operation::RegisterPolicy { caller, now, policy_type, coverage_amount } => after_register(
            store,
            caller,
            now,
            policy_type,
            coverage_amount,
        ),
        Operation::DeactivatePolicy { caller, now, policy_id } => after_deactivate(
            store,
            now,
            policy_id,
        ),
        Operation::UpdatePolicyCoverage {
            caller,
            now,
            policy_id,
            new_coverage,
        } => after_update_coverage(store, now, policy_id, new_coverage),
        Operation::SubmitClaim {
            caller,
            now,
            policy_id,
            claim_amount,
            description,
            supporting_documents,
        } => after_submit(
            store,
            caller,
            now,
            policy_id,
            claim_amount,
            description,
            supporting_documents,
        ),
        Operation::ReviewClaim { now, claim_id, decision, notes } => after_review(
            store,
            now,
            claim_id,
            decision,
            notes,
        ),
        Operation::ProcessClaim { now, claim_id } => after_process(store, now, claim_id),
    }
}

/// The store after `operation` was asked of `store`: changed as the
/// operation says if it was accepted, and as it was if it was refused.
pub open spec fn step(store: StoreView, operation: Operation) -> StoreView {
    if refusal(store, operation) is Some {
        store
    } else {
        accepted(store, operation)
    }
}

/// The identifier that `operation` hands out in `store`: that of the new
/// policy or of the new claim, if the operation creates one and is accepted.
pub open spec fn issued_id(store: StoreView, operation: Operation) -> Option<Seq<char>> {
    if refusal(store, operation) is Some {
        None
    } else {
        match operation {
            Operation::RegisterPolicy { .. } => Some(policy_id_text(store.policy_counter + 1)),
            Operation::SubmitClaim { .. } => Some(claim_id_text(store.claim_counter + 1)),
            _ => None,
        }
    }
}

/// The store after the operations of `operations` were asked of `store`, one
/// after the other.
pub open spec fn run(store: StoreView, operations: Seq<Operation>) -> StoreView
    decreases operations.len(),
{
    if operations.len() == 0 {
        store
    } else {
        step(run(store, operations.drop_last()), operations.last())
    }
}

} // verus!
