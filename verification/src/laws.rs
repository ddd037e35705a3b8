//! What holds of the store whatever is asked of it.

use crate::claim::payment_notes;
use crate::ids::{claim_id_text, ids_are_not_empty, policy_id_is_no_claim_id, policy_id_text};
use crate::policy::PolicyView;
use crate::processor::{next_claim_id_is_fresh, next_policy_id_is_fresh, StoreView};
use crate::rules::{issued_id, refusal, run, step, Operation};
use crate::status::ClaimStatus;
use vstd::prelude::*;

verus! {

/// No operation brings a store out of order: after it every policy and every
/// claim still stands under its own identifier, every policy still covers a
/// positive amount, and every claim's trail still starts with the line of
/// its submission and ends with the line of its current status.
pub proof fn step_keeps_store_in_order(store: StoreView, operation: Operation)
    requires
        store.wf(),
    ensures
        step(store, operation).wf(),
{
}

/// No row of operations brings a store out of order.
pub proof fn run_keeps_store_in_order(store: StoreView, operations: Seq<Operation>)
    requires
        store.wf(),
    ensures
        run(store, operations).wf(),
    decreases operations.len(),
{
    if operations.len() > 0 {
        run_keeps_store_in_order(store, operations.drop_last());
        step_keeps_store_in_order(run(store, operations.drop_last()), operations.last());
    }
}

/// The status of a claim in a store is the status on the last line of its
/// trail.
pub proof fn status_is_last_line_of_trail(store: StoreView, claim_id: Seq<char>)
    requires
        store.wf(),
        store.claims.contains_key(claim_id),
    ensures
        store.claims[claim_id].history.len() > 0,
        store.claims[claim_id].history.last().status == store.claims[claim_id].status,
{
}

/// Policies arise only by registration: a policy that a store holds after an
/// operation and did not hold before was registered by that operation, under
/// the identifier that the operation handed out, active, and held by the
/// caller.
pub proof fn policies_arise_only_by_registration(
    store: StoreView,
    operation: Operation,
    policy_id: Seq<char>,
)
    requires
        !store.policies.contains_key(policy_id),
        step(store, operation).policies.contains_key(policy_id),
    ensures
        operation is RegisterPolicy,
        issued_id(store, operation) == Some(policy_id),
        step(store, operation).policies[policy_id] == PolicyView::registered(
            policy_id,
            operation->RegisterPolicy_caller,
            operation->RegisterPolicy_policy_type,
            operation->RegisterPolicy_coverage_amount,
            operation->RegisterPolicy_now,
        ),
{
}

/// A policy is never removed, and no operation changes its identifier, its
/// holder, its type or the time of its creation.
pub proof fn policy_particulars_are_fixed(
    store: StoreView,
    operation: Operation,
    policy_id: Seq<char>,
)
    requires
        store.wf(),
        store.policies.contains_key(policy_id),
    ensures
        step(store, operation).policies.contains_key(policy_id),
        step(store, operation).policies[policy_id].id == store.policies[policy_id].id,
        step(store, operation).policies[policy_id].policy_holder
            == store.policies[policy_id].policy_holder,
        step(store, operation).policies[policy_id].policy_type
            == store.policies[policy_id].policy_type,
        step(store, operation).policies[policy_id].created_at
            == store.policies[policy_id].created_at,
{
    next_policy_id_is_fresh(store);
}

/// A policy changes only at the word of its holder: an operation after which
/// a policy is not what it was is a cancellation or a change of coverage of
/// that policy, asked by the one who holds it, and the time of the call is
/// the time of the policy's last change.
pub proof fn policy_changes_only_by_its_holder(
    store: StoreView,
    operation: Operation,
    policy_id: Seq<char>,
)
    requires
        store.wf(),
        store.policies.contains_key(policy_id),
        step(store, operation).policies[policy_id] != store.policies[policy_id],
    ensures
        match operation {
            Operation::DeactivatePolicy { caller, now, policy_id: asked } => {
                &&& asked == policy_id
                &&& caller == store.policies[policy_id].policy_holder
                &&& step(store, operation).policies[policy_id]
                    == store.policies[policy_id].cancelled(now)
            },
            Operation::UpdatePolicyCoverage { caller, now, policy_id: asked, new_coverage } => {
                &&& asked == policy_id
                &&& caller == store.policies[policy_id].policy_holder
                &&& store.policies[policy_id].active
                &&& new_coverage > 0
                &&& step(store, operation).policies[policy_id]
                    == store.policies[policy_id].with_coverage(new_coverage, now)
            },
            _ => false,
        },
{
    next_policy_id_is_fresh(store);
}

/// A cancelled policy stays cancelled: no operation makes an inactive policy
/// active again, or removes it.
pub proof fn cancelled_policy_stays_cancelled(
    store: StoreView,
    operation: Operation,
    policy_id: Seq<char>,
)
    requires
        store.wf(),
        store.policies.contains_key(policy_id),
        !store.policies[policy_id].active,
    ensures
        step(store, operation).policies.contains_key(policy_id),
        !step(store, operation).policies[policy_id].active,
{
    next_policy_id_is_fresh(store);
}

/// A cancelled policy changes no more: after any operation it is what it was
/// but for the time of its last change, which a repeated cancellation sets.
pub proof fn cancelled_policy_changes_no_more(
    store: StoreView,
    operation: Operation,
    policy_id: Seq<char>,
)
    requires
        store.wf(),
        store.policies.contains_key(policy_id),
        !store.policies[policy_id].active,
    ensures
        step(store, operation).policies[policy_id] == (PolicyView {
            last_modified: step(store, operation).policies[policy_id].last_modified,
            ..store.policies[policy_id]
        }),
{
    next_policy_id_is_fresh(store);
}

/// A cancelled policy stays cancelled, whatever row of operations follows.
pub proof fn cancelled_policy_stays_cancelled_for_good(
    store: StoreView,
    operations: Seq<Operation>,
    policy_id: Seq<char>,
)
    requires
        store.wf(),
        store.policies.contains_key(policy_id),
        !store.policies[policy_id].active,
    ensures
        run(store, operations).policies.contains_key(policy_id),
        !run(store, operations).policies[policy_id].active,
    decreases operations.len(),
{
    if operations.len() > 0 {
        cancelled_policy_stays_cancelled_for_good(store, operations.drop_last(), policy_id);
        run_keeps_store_in_order(store, operations.drop_last());
        cancelled_policy_stays_cancelled(
            run(store, operations.drop_last()),
            operations.last(),
            policy_id,
        );
    }
}

/// Claims arise only by submission: a claim that a store holds after an
/// operation and did not hold before was submitted by that operation, under
/// the identifier that the operation handed out, and its status is
/// `Submitted`.
pub proof fn claims_arise_only_by_submission(
    store: StoreView,
    operation: Operation,
    claim_id: Seq<char>,
)
    requires
        !store.claims.contains_key(claim_id),
        step(store, operation).claims.contains_key(claim_id),
    ensures
        operation is SubmitClaim,
        issued_id(store, operation) == Some(claim_id),
        step(store, operation).claims[claim_id].status == ClaimStatus::Submitted,
        step(store, operation).claims[claim_id].claimant == operation->SubmitClaim_caller,
        step(store, operation).claims[claim_id].history.len() == 1,
{
}

/// An accepted claim was covered when it was submitted: its policy was in
/// the store and active, the caller held it, and the claim asked for no more
/// than the policy covered then.
pub proof fn accepted_claim_was_covered(store: StoreView, operation: Operation)
    requires
        operation is SubmitClaim,
        refusal(store, operation) is None,
    ensures
        store.policies.contains_key(operation->SubmitClaim_policy_id),
        store.policies[operation->SubmitClaim_policy_id].active,
        store.policies[operation->SubmitClaim_policy_id].policy_holder
            == operation->SubmitClaim_caller,
        operation->SubmitClaim_claim_amount
            <= store.policies[operation->SubmitClaim_policy_id].coverage_amount,
{
}

/// A change of coverage, accepted or not, leaves every claim as it was: a
/// claim that was accepted under the old coverage is not judged again.
pub proof fn coverage_change_keeps_claims(store: StoreView, operation: Operation)
    requires
        operation is UpdatePolicyCoverage,
    ensures
        step(store, operation).claims == store.claims,
{
}

/// A claim is never removed, and no operation changes its identifier, its
/// claimant, its policy type, its amount, its description, its documents or
/// the time of its submission.
pub proof fn claim_particulars_are_fixed(
    store: StoreView,
    operation: Operation,
    claim_id: Seq<char>,
)
    requires
        store.wf(),
        store.claims.contains_key(claim_id),
    ensures
        step(store, operation).claims.contains_key(claim_id),
        step(store, operation).claims[claim_id].id == store.claims[claim_id].id,
        step(store, operation).claims[claim_id].claimant == store.claims[claim_id].claimant,
        step(store, operation).claims[claim_id].policy_type == store.claims[claim_id].policy_type,
        step(store, operation).claims[claim_id].claim_amount
            == store.claims[claim_id].claim_amount,
        step(store, operation).claims[claim_id].description == store.claims[claim_id].description,
        step(store, operation).claims[claim_id].supporting_documents
            == store.claims[claim_id].supporting_documents,
        step(store, operation).claims[claim_id].timestamp == store.claims[claim_id].timestamp,
{
    next_claim_id_is_fresh(store);
}

/// A claim changes only by a decision or a payment: an operation after which
/// a claim is not what it was is a review of that claim or its payment, and
/// the claim afterwards is the claim before with its new status and with one
/// line more at the end of its trail, which holds that status. A claim is
/// paid only when it was verified.
pub proof fn claim_changes_only_by_decision_or_payment(
    store: StoreView,
    operation: Operation,
    claim_id: Seq<char>,
)
    requires
        store.wf(),
        store.claims.contains_key(claim_id),
        step(store, operation).claims[claim_id] != store.claims[claim_id],
    ensures
        match operation {
            Operation::ReviewClaim { now, claim_id: asked, decision, notes } => {
                &&& asked == claim_id
                &&& step(store, operation).claims[claim_id] == store.claims[claim_id].recorded(
                    ClaimStatus::decided(decision),
                    now,
                    notes,
                )
            },
            Operation::ProcessClaim { now, claim_id: asked } => {
                &&& asked == claim_id
                &&& store.claims[claim_id].status == ClaimStatus::Verified
                &&& step(store, operation).claims[claim_id] == store.claims[claim_id].recorded(
                    ClaimStatus::Paid,
                    now,
                    payment_notes(),
                )
            },
            _ => false,
        },
{
    next_claim_id_is_fresh(store);
}

/// A claim's trail only grows: after any operation the trail starts with
/// all the lines that it had before, in their order, so that it is at least
/// as long as it was and no line was rewritten or removed. An operation adds
/// at most one line.
pub proof fn trail_only_grows(store: StoreView, operation: Operation, claim_id: Seq<char>)
    requires
        store.wf(),
        store.claims.contains_key(claim_id),
    ensures
        step(store, operation).claims.contains_key(claim_id),
        store.claims[claim_id].history.is_prefix_of(step(store, operation).claims[claim_id].history),
        store.claims[claim_id].history.len() <= step(
            store,
            operation,
        ).claims[claim_id].history.len() <= store.claims[claim_id].history.len() + 1,
{
    next_claim_id_is_fresh(store);
}

/// A claim's trail only grows, whatever row of operations follows: the
/// trail afterwards starts with all the lines that it had before.
pub proof fn trail_only_grows_for_good(
    store: StoreView,
    operations: Seq<Operation>,
    claim_id: Seq<char>,
)
    requires
        store.wf(),
        store.claims.contains_key(claim_id),
    ensures
        run(store, operations).claims.contains_key(claim_id),
        store.claims[claim_id].history.is_prefix_of(run(store, operations).claims[claim_id].history),
        store.claims[claim_id].history.len() <= run(store, operations).claims[claim_id].history.len(),
    decreases operations.len(),
{
    if operations.len() > 0 {
        trail_only_grows_for_good(store, operations.drop_last(), claim_id);
        run_keeps_store_in_order(store, operations.drop_last());
        trail_only_grows(run(store, operations.drop_last()), operations.last(), claim_id);
    }
}

/// The two reserved statuses never arise: if no claim of a store has one of
/// them, none has after any operation.
pub proof fn reserved_statuses_never_arise(store: StoreView, operation: Operation)
    requires
        store.wf(),
        forall|id: Seq<char>| #[trigger]
            store.claims.contains_key(id) ==> !store.claims[id].status.is_reserved(),
    ensures
        forall|id: Seq<char>| #[trigger]
            step(store, operation).claims.contains_key(id) ==> !step(
                store,
                operation,
            ).claims[id].status.is_reserved(),
{
}

/// The two reserved statuses are never seen: whatever row of operations is
/// asked of a store that starts empty, no claim has one of them.
pub proof fn reserved_statuses_are_never_seen(operations: Seq<Operation>)
    ensures
        forall|id: Seq<char>| #[trigger]
            run(StoreView::empty(), operations).claims.contains_key(id) ==> !run(
                StoreView::empty(),
                operations,
            ).claims[id].status.is_reserved(),
    decreases operations.len(),
{
    if operations.len() > 0 {
        reserved_statuses_are_never_seen(operations.drop_last());
        run_keeps_store_in_order(StoreView::empty(), operations.drop_last());
        reserved_statuses_never_arise(
            run(StoreView::empty(), operations.drop_last()),
            operations.last(),
        );
    }
}

/// Nothing stands under the empty identifier.
pub proof fn empty_id_names_nothing(store: StoreView)
    requires
        store.wf(),
    ensures
        !store.policies.contains_key(Seq::<char>::empty()),
        !store.claims.contains_key(Seq::<char>::empty()),
{
    let empty = Seq::<char>::empty();
    if store.policies.contains_key(empty) {
        let n = choose|n: nat|
            1 <= n <= store.policy_counter && empty == #[trigger] policy_id_text(n);
        ids_are_not_empty(n);
    }
    if store.claims.contains_key(empty) {
        let n = choose|n: nat| 1 <= n <= store.claim_counter && empty == #[trigger] claim_id_text(n);
        ids_are_not_empty(n);
    }
}

/// An identifier that an operation hands out was not in use before: no
/// policy and no claim of the store has it.
pub proof fn issued_id_is_new(store: StoreView, operation: Operation)
    requires
        store.wf(),
        issued_id(store, operation) is Some,
    ensures
        !store.policies.contains_key(issued_id(store, operation)->Some_0),
        !store.claims.contains_key(issued_id(store, operation)->Some_0),
{
    next_policy_id_is_fresh(store);
    next_claim_id_is_fresh(store);
    let id = issued_id(store, operation)->Some_0;
    match operation {
        Operation::RegisterPolicy { .. } => {
            if store.claims.contains_key(id) {
                let n = choose|n: nat|
                    1 <= n <= store.claim_counter && id == #[trigger] claim_id_text(n);
                policy_id_is_no_claim_id((store.policy_counter + 1) as nat, n);
            }
        },
        Operation::SubmitClaim { .. } => {
            if store.policies.contains_key(id) {
                let n = choose|n: nat|
                    1 <= n <= store.policy_counter && id == #[trigger] policy_id_text(n);
                policy_id_is_no_claim_id(n, (store.claim_counter + 1) as nat);
            }
        },
        _ => {},
    }
}

/// The store after the first `count + 1` operations of a row is the store
/// after the first `count`, one step on.
proof fn run_unfolds(store: StoreView, operations: Seq<Operation>, count: int)
    requires
        0 <= count < operations.len(),
    ensures
        run(store, operations.take(count + 1)) == step(
            run(store, operations.take(count)),
            operations[count],
        ),
{
    assert(operations.take(count + 1).drop_last() =~= operations.take(count));
}

/// What a store holds after some operations of a row, it still holds after
/// more of them.
proof fn run_keeps_entries(store: StoreView, operations: Seq<Operation>, early: int, late: int)
    requires
        store.wf(),
        0 <= early <= late <= operations.len(),
    ensures
        forall|id: Seq<char>| #[trigger]
            run(store, operations.take(early)).policies.contains_key(id) ==> run(
                store,
                operations.take(late),
            ).policies.contains_key(id),
        forall|id: Seq<char>| #[trigger]
            run(store, operations.take(early)).claims.contains_key(id) ==> run(
                store,
                operations.take(late),
            ).claims.contains_key(id),
    decreases late - early,
{
    if early < late {
        run_keeps_entries(store, operations, early, late - 1);
        run_unfolds(store, operations, late - 1);
        let before = run(store, operations.take(late - 1));
        run_keeps_store_in_order(store, operations.take(late - 1));
        assert forall|id: Seq<char>| #[trigger]
            before.policies.contains_key(id) implies step(
            before,
            operations[late - 1],
        ).policies.contains_key(id) by {
            policy_particulars_are_fixed(before, operations[late - 1], id);
        }
        assert forall|id: Seq<char>| #[trigger] before.claims.contains_key(id) implies step(
            before,
            operations[late - 1],
        ).claims.contains_key(id) by {
            claim_particulars_are_fixed(before, operations[late - 1], id);
        }
    }
}

/// Identifiers are never handed out twice: in a row of operations on a store
/// that is in order, the identifier that one operation hands out differs
/// from the identifier that any later operation hands out, be they of
/// policies or of claims.
pub proof fn issued_ids_never_repeat(
    store: StoreView,
    operations: Seq<Operation>,
    earlier: int,
    later: int,
)
    requires
        store.wf(),
        0 <= earlier < later < operations.len(),
        issued_id(run(store, operations.take(earlier)), operations[earlier]) is Some,
        issued_id(run(store, operations.take(later)), operations[later]) is Some,
    ensures
        issued_id(run(store, operations.take(earlier)), operations[earlier]) != issued_id(
            run(store, operations.take(later)),
            operations[later],
        ),
{
    let before_earlier = run(store, operations.take(earlier));
    let after_earlier = run(store, operations.take(earlier + 1));
    let before_later = run(store, operations.take(later));
    let first = issued_id(before_earlier, operations[earlier])->Some_0;
    run_unfolds(store, operations, earlier);
    assert(after_earlier.policies.contains_key(first) || after_earlier.claims.contains_key(first));
    run_keeps_entries(store, operations, earlier + 1, later);
    run_keeps_store_in_order(store, operations.take(later));
    issued_id_is_new(before_later, operations[later]);
}

} // verus!
