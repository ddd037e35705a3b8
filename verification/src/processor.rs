//! The store: every policy and every claim, each under its identifier, and
//! the two counters that identifiers are drawn from.
//!
//! The store keeps what it is given and hands out fresh identifiers. It
//! applies none of the rules; those are in `update`.

use crate::claim::{Claim, ClaimView};
use crate::ids::{
    claim_id, claim_id_text, claim_ids_are_distinct, policy_id, policy_id_text,
    policy_ids_are_distinct,
};
use crate::policy::{Policy, PolicyView};
use vstd::hash_map::StringHashMap;
use vstd::prelude::*;
use vstd::string::*;

verus! {

/// Holds the policies and the claims, and numbers them.
pub struct InsuranceClaimProcessor {
    claims: StringHashMap<Claim>,
    policies: StringHashMap<Policy>,
    claim_counter: u64,
    policy_counter: u64,
}

/// An `InsuranceClaimProcessor` as a mathematical value.
pub struct StoreView {
    pub claims: Map<Seq<char>, ClaimView>,
    pub policies: Map<Seq<char>, PolicyView>,
    /// How many claim identifiers were handed out.
    pub claim_counter: nat,
    /// How many policy identifiers were handed out.
    pub policy_counter: nat,
}

/// `id` is one of the first `count` policy identifiers.
pub open spec fn issued_policy_id(id: Seq<char>, count: nat) -> bool {
    exists|n: nat| 1 <= n <= count && id == #[trigger] policy_id_text(n)
}

/// `id` is one of the first `count` claim identifiers.
pub open spec fn issued_claim_id(id: Seq<char>, count: nat) -> bool {
    exists|n: nat| 1 <= n <= count && id == #[trigger] claim_id_text(n)
}

impl StoreView {
    /// The store that holds nothing yet.
    pub open spec fn empty() -> StoreView {
        StoreView {
            claims: Map::<Seq<char>, ClaimView>::empty(),
            policies: Map::<Seq<char>, PolicyView>::empty(),
            claim_counter: 0,
            policy_counter: 0,
        }
    }

    /// This store with `policy` under its identifier, in place of any policy
    /// that was there.
    pub open spec fn with_policy(self, policy: PolicyView) -> StoreView {
        StoreView { policies: self.policies.insert(policy.id, policy), ..self }
    }

    /// This store with `claim` under its identifier, in place of any claim
    /// that was there.
    pub open spec fn with_claim(self, claim: ClaimView) -> StoreView {
        StoreView { claims: self.claims.insert(claim.id, claim), ..self }
    }

    /// This store after one more policy identifier was handed out.
    pub open spec fn with_next_policy_id(self) -> StoreView {
        StoreView { policy_counter: self.policy_counter + 1, ..self }
    }

    /// This store after one more claim identifier was handed out.
    pub open spec fn with_next_claim_id(self) -> StoreView {
        StoreView { claim_counter: self.claim_counter + 1, ..self }
    }

    /// What holds of a store at all times. Every policy and every claim
    /// stands under its own identifier, which is one that the store handed
    /// out; every policy covers a positive amount; every claim's audit trail
    /// is in order.
    pub open spec fn wf(self) -> bool {
        &&& forall|id: Seq<char>| #[trigger]
            self.policies.contains_key(id) ==> {
                &&& self.policies[id].id == id
                &&& issued_policy_id(id, self.policy_counter)
                &&& self.policies[id].coverage_amount > 0
            }
        &&& forall|id: Seq<char>| #[trigger]
            self.claims.contains_key(id) ==> {
                &&& self.claims[id].id == id
                &&& issued_claim_id(id, self.claim_counter)
                &&& self.claims[id].wf()
            }
    }
}

/// The eligibility rule: an active policy covers a claim that asks for no
/// more than the policy's coverage.
pub open spec fn is_eligible(claim: ClaimView, policy: PolicyView) -> bool {
    policy.active && claim.claim_amount <= policy.coverage_amount
}

/// The policy identifier that comes after the first `count` is none of them.
pub proof fn next_policy_id_is_unissued(count: nat)
    ensures
        !issued_policy_id(policy_id_text(count + 1), count),
{
    assert forall|n: nat| 1 <= n <= count implies policy_id_text(count + 1)
        != #[trigger] policy_id_text(n) by {
        if policy_id_text(count + 1) == policy_id_text(n) {
            policy_ids_are_distinct(n, count + 1);
        }
    }
}

/// The claim identifier that comes after the first `count` is none of them.
pub proof fn next_claim_id_is_unissued(count: nat)
    ensures
        !issued_claim_id(claim_id_text(count + 1), count),
{
    assert forall|n: nat| 1 <= n <= count implies claim_id_text(count + 1)
        != #[trigger] claim_id_text(n) by {
        if claim_id_text(count + 1) == claim_id_text(n) {
            claim_ids_are_distinct(n, count + 1);
        }
    }
}

/// The policy identifier that comes next is not yet in use.
pub proof fn next_policy_id_is_fresh(store: StoreView)
    requires
        store.wf(),
    ensures
        !store.policies.contains_key(policy_id_text(store.policy_counter + 1)),
{
    next_policy_id_is_unissued(store.policy_counter);
}

/// The claim identifier that comes next is not yet in use.
pub proof fn next_claim_id_is_fresh(store: StoreView)
    requires
        store.wf(),
    ensures
        !store.claims.contains_key(claim_id_text(store.claim_counter + 1)),
{
    next_claim_id_is_unissued(store.claim_counter);
}

impl View for InsuranceClaimProcessor {
    type V = StoreView;

    closed spec fn view(&self) -> StoreView {
        StoreView {
            claims: self.claims@.map_values(|claim: Claim| claim@),
            policies: self.policies@.map_values(|policy: Policy| policy@),
            claim_counter: self.claim_counter as nat,
            policy_counter: self.policy_counter as nat,
        }
    }
}

impl Default for InsuranceClaimProcessor {
    fn default() -> (store: Self)
        ensures
            store@ == StoreView::empty(),
            store@.wf(),
    {
        InsuranceClaimProcessor::new()
    }
}

impl InsuranceClaimProcessor {
    /// A store that holds nothing yet.
    pub fn new() -> (store: Self)
        ensures
            store@ == StoreView::empty(),
            store@.wf(),
    {
        let store = InsuranceClaimProcessor {
            claims: StringHashMap::new(),
            policies: StringHashMap::new(),
            claim_counter: 0,
            policy_counter: 0,
        };
        assert(store@.claims =~= Map::<Seq<char>, ClaimView>::empty());
        assert(store@.policies =~= Map::<Seq<char>, PolicyView>::empty());
        store
    }

    /// How many claim identifiers were handed out.
    pub fn claim_counter(&self) -> (count: u64)
        ensures
            count == self@.claim_counter,
    {
        self.claim_counter
    }

    /// How many policy identifiers were handed out.
    pub fn policy_counter(&self) -> (count: u64)
        ensures
            count == self@.policy_counter,
    {
        self.policy_counter
    }

    /// Hands out the next claim identifier. No claim has it, and it is none
    /// of those handed out before.
    pub fn generate_claim_id(&mut self) -> (id: String)
        requires
            old(self)@.wf(),
            old(self)@.claim_counter < u64::MAX,
        ensures
            final(self)@ == old(self)@.with_next_claim_id(),
            final(self)@.wf(),
            id@ == claim_id_text(final(self)@.claim_counter),
            !issued_claim_id(id@, old(self)@.claim_counter),
            !final(self)@.claims.contains_key(id@),
    {
        proof {
            next_claim_id_is_unissued(self@.claim_counter);
        }
        self.claim_counter += 1;
        claim_id(self.claim_counter)
    }

    /// Hands out the next policy identifier. No policy has it, and it is
    /// none of those handed out before.
    pub fn generate_policy_id(&mut self) -> (id: String)
        requires
            old(self)@.wf(),
            old(self)@.policy_counter < u64::MAX,
        ensures
            final(self)@ == old(self)@.with_next_policy_id(),
            final(self)@.wf(),
            id@ == policy_id_text(final(self)@.policy_counter),
            !issued_policy_id(id@, old(self)@.policy_counter),
            !final(self)@.policies.contains_key(id@),
    {
        proof {
            next_policy_id_is_unissued(self@.policy_counter);
        }
        self.policy_counter += 1;
        policy_id(self.policy_counter)
    }

    /// Whether `policy` covers `claim`: the policy is active and the claim
    /// asks for no more than the policy covers.
    pub fn verify_claim_eligibility(claim: &Claim, policy: &Policy) -> (eligible: bool)
        ensures
            eligible == is_eligible(claim@, policy@),
    {
        if !policy.active() {
            return false;
        }
        if claim.claim_amount() > policy.coverage_amount() {
            return false;
        }
        true
    }

    /// The policy under `id`, if there is one.
    pub fn policy(&self, id: &str) -> (found: Option<&Policy>)
        ensures
            match found {
                Some(policy) => self@.policies.contains_key(id@) && policy@ == self@.policies[id@],
                None => !self@.policies.contains_key(id@),
            },
    {
        self.policies.get(id)
    }

    /// The claim under `id`, if there is one.
    pub fn claim(&self, id: &str) -> (found: Option<&Claim>)
        ensures
            match found {
                Some(claim) => self@.claims.contains_key(id@) && claim@ == self@.claims[id@],
                None => !self@.claims.contains_key(id@),
            },
    {
        self.claims.get(id)
    }

    /// Puts `policy` under its identifier, in place of any policy that was
    /// there.
    pub(crate) fn put_policy(&mut self, policy: Policy)
        ensures
            final(self)@ == old(self)@.with_policy(policy@),
    {
        let key = String::from_str(policy.id());
        self.policies.insert(key, policy);
        assert(self@.policies =~= old(self)@.policies.insert(policy@.id, policy@));
    }

    /// Puts `claim` under its identifier, in place of any claim that was
    /// there.
    pub(crate) fn put_claim(&mut self, claim: Claim)
        ensures
            final(self)@ == old(self)@.with_claim(claim@),
    {
        let key = String::from_str(claim.id());
        self.claims.insert(key, claim);
        assert(self@.claims =~= old(self)@.claims.insert(claim@.id, claim@));
    }
}

} // verus!
