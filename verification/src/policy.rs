//! Policies.

use candid::Principal;
use vstd::prelude::*;

verus! {

/// A coverage agreement that one identity holds.
#[derive(Debug)]
pub struct Policy {
    id: String,
    policy_holder: Principal,
    policy_type: String,
    coverage_amount: u64,
    active: bool,
    created_at: u64,
    last_modified: u64,
}

/// A `Policy` as a mathematical value.
pub struct PolicyView {
    pub id: Seq<char>,
    pub policy_holder: Principal,
    pub policy_type: Seq<char>,
    pub coverage_amount: u64,
    pub active: bool,
    pub created_at: u64,
    pub last_modified: u64,
}

impl PolicyView {
    /// The policy that a registration at time `now` creates: active, and
    /// held by the one who registered it.
    pub open spec fn registered(
        id: Seq<char>,
        policy_holder: Principal,
        policy_type: Seq<char>,
        coverage_amount: u64,
        now: u64,
    ) -> PolicyView {
        PolicyView {
            id,
            policy_holder,
            policy_type,
            coverage_amount,
            active: true,
            created_at: now,
            last_modified: now,
        }
    }

    /// This policy after it was cancelled at time `now`.
    pub open spec fn cancelled(self, now: u64) -> PolicyView {
        PolicyView { active: false, last_modified: now, ..self }
    }

    /// This policy after its coverage was set to `coverage_amount` at time
    /// `now`.
    pub open spec fn with_coverage(self, coverage_amount: u64, now: u64) -> PolicyView {
        PolicyView { coverage_amount, last_modified: now, ..self }
    }
}

impl View for Policy {
    type V = PolicyView;

    closed spec fn view(&self) -> PolicyView {
        PolicyView {
            id: self.id@,
            policy_holder: self.policy_holder,
            policy_type: self.policy_type@,
            coverage_amount: self.coverage_amount,
            active: self.active,
            created_at: self.created_at,
            last_modified: self.last_modified,
        }
    }
}

impl Clone for Policy {
    fn clone(&self) -> (copy: Self)
        ensures
            copy@ == self@,
    {
        Policy {
            id: self.id.clone(),
            policy_holder: self.policy_holder,
            policy_type: self.policy_type.clone(),
            coverage_amount: self.coverage_amount,
            active: self.active,
            created_at: self.created_at,
            last_modified: self.last_modified,
        }
    }
}

impl Policy {
    /// A policy with the given fields.
    pub fn new(
        id: String,
        policy_holder: Principal,
        policy_type: String,
        coverage_amount: u64,
        active: bool,
        created_at: u64,
        last_modified: u64,
    ) -> (policy: Policy)
        ensures
            policy@ == (PolicyView {
                id: id@,
                policy_holder,
                policy_type: policy_type@,
                coverage_amount,
                active,
                created_at,
                last_modified,
            }),
    {
        Policy { id, policy_holder, policy_type, coverage_amount, active, created_at, last_modified }
    }

    /// The policy that a registration at time `now` creates.
    pub fn registered(
        id: String,
        policy_holder: Principal,
        policy_type: String,
        coverage_amount: u64,
        now: u64,
    ) -> (policy: Policy)
        ensures
            policy@ == PolicyView::registered(
                id@,
                policy_holder,
                policy_type@,
                coverage_amount,
                now,
            ),
    {
        Policy {
            id,
            policy_holder,
            policy_type,
            coverage_amount,
            active: true,
            created_at: now,
            last_modified: now,
        }
    }

    /// Cancels the policy.
    pub fn cancel(&mut self, now: u64)
        ensures
            final(self)@ == old(self)@.cancelled(now),
    {
        self.active = false;
        self.last_modified = now;
    }

    /// Sets what the policy covers.
    pub fn set_coverage(&mut self, coverage_amount: u64, now: u64)
        ensures
            final(self)@ == old(self)@.with_coverage(coverage_amount, now),
    {
        self.coverage_amount = coverage_amount;
        self.last_modified = now;
    }

    /// The identifier under which the policy is stored.
    pub fn id(&self) -> (id: &str)
        ensures
            id@ == self@.id,
    {
        self.id.as_str()
    }

    /// The one who registered the policy.
    pub fn policy_holder(&self) -> (policy_holder: Principal)
        ensures
            policy_holder == self@.policy_holder,
    {
        self.policy_holder
    }

    /// The sort of policy, as a free text.
    pub fn policy_type(&self) -> (policy_type: &str)
        ensures
            policy_type@ == self@.policy_type,
    {
        self.policy_type.as_str()
    }

    /// The most that a claim under the policy may ask for.
    pub fn coverage_amount(&self) -> (coverage_amount: u64)
        ensures
            coverage_amount == self@.coverage_amount,
    {
        self.coverage_amount
    }

    /// Whether the policy is in force; false once it was cancelled.
    pub fn active(&self) -> (active: bool)
        ensures
            active == self@.active,
    {
        self.active
    }

    /// When the policy was registered.
    pub fn created_at(&self) -> (created_at: u64)
        ensures
            created_at == self@.created_at,
    {
        self.created_at
    }

    /// When the policy was last changed.
    pub fn last_modified(&self) -> (last_modified: u64)
        ensures
            last_modified == self@.last_modified,
    {
        self.last_modified
    }
}

} // verus!
