//! Claims and their audit trail.

use crate::status::ClaimStatus;
use candid::Principal;
use vstd::prelude::*;
use vstd::string::*;

verus! {

/// One line of a claim's audit trail: the status that the claim took, when,
/// and the remark that came with it.
#[derive(Debug)]
pub struct HistoryEntry {
    pub status: ClaimStatus,
    pub timestamp: u64,
    pub notes: String,
}

/// A `HistoryEntry` as a mathematical value.
pub struct HistoryEntryView {
    pub status: ClaimStatus,
    pub timestamp: u64,
    pub notes: Seq<char>,
}

impl View for HistoryEntry {
    type V = HistoryEntryView;

    open spec fn view(&self) -> HistoryEntryView {
        HistoryEntryView { status: self.status, timestamp: self.timestamp, notes: self.notes@ }
    }
}

impl DeepView for HistoryEntry {
    type V = HistoryEntryView;

    open spec fn deep_view(&self) -> HistoryEntryView {
        self@
    }
}

impl Clone for HistoryEntry {
    fn clone(&self) -> (copy: Self)
        ensures
            copy@ == self@,
    {
        HistoryEntry { status: self.status, timestamp: self.timestamp, notes: self.notes.clone() }
    }
}

/// A request for payment under a policy.
#[derive(Debug)]
pub struct Claim {
    id: String,
    claimant: Principal,
    policy_type: String,
    claim_amount: u64,
    description: String,
    supporting_documents: Vec<String>,
    status: ClaimStatus,
    timestamp: u64,
    history: Vec<HistoryEntry>,
}

/// A `Claim` as a mathematical value.
pub struct ClaimView {
    pub id: Seq<char>,
    pub claimant: Principal,
    pub policy_type: Seq<char>,
    pub claim_amount: u64,
    pub description: Seq<char>,
    pub supporting_documents: Seq<Seq<char>>,
    pub status: ClaimStatus,
    pub timestamp: u64,
    pub history: Seq<HistoryEntryView>,
}

/// The remark on the first line of every audit trail.
pub open spec fn submission_notes() -> Seq<char> {
    "Claim submitted"@
}

/// The remark on the line that records a payment.
pub open spec fn payment_notes() -> Seq<char> {
    "Claim paid"@
}

impl ClaimView {
    /// The claim that a submission at time `now` creates, before it has an
    /// identifier: its status is `Submitted` and its trail holds the one
    /// line that says so.
    pub open spec fn submitted(
        claimant: Principal,
        policy_type: Seq<char>,
        claim_amount: u64,
        description: Seq<char>,
        supporting_documents: Seq<Seq<char>>,
        now: u64,
    ) -> ClaimView {
        ClaimView {
            id: Seq::<char>::empty(),
            claimant,
            policy_type,
            claim_amount,
            description,
            supporting_documents,
            status: ClaimStatus::Submitted,
            timestamp: now,
            history: seq![
                HistoryEntryView {
                    status: ClaimStatus::Submitted,
                    timestamp: now,
                    notes: submission_notes(),
                },
            ],
        }
    }

    /// This claim under the identifier `id`.
    pub open spec fn with_id(self, id: Seq<char>) -> ClaimView {
        ClaimView { id, ..self }
    }

    /// This claim after it took `status` at time `now`: the status is set and
    /// one line is added to the end of the trail.
    pub open spec fn recorded(self, status: ClaimStatus, now: u64, notes: Seq<char>) -> ClaimView {
        ClaimView {
            status,
            history: self.history.push(HistoryEntryView { status, timestamp: now, notes }),
            ..self
        }
    }

    /// What holds of every claim in a store: its trail starts with the line
    /// of its submission and ends with the line of its current status.
    pub open spec fn wf(self) -> bool {
        &&& self.history.len() > 0
        &&& self.history.first() == (HistoryEntryView {
            status: ClaimStatus::Submitted,
            timestamp: self.timestamp,
            notes: submission_notes(),
        })
        &&& self.history.last().status == self.status
    }
}

impl View for Claim {
    type V = ClaimView;

    closed spec fn view(&self) -> ClaimView {
        ClaimView {
            id: self.id@,
            claimant: self.claimant,
            policy_type: self.policy_type@,
            claim_amount: self.claim_amount,
            description: self.description@,
            supporting_documents: self.supporting_documents.deep_view(),
            status: self.status,
            timestamp: self.timestamp,
            history: self.history.deep_view(),
        }
    }
}

impl Clone for Claim {
    fn clone(&self) -> (copy: Self)
        ensures
            copy@ == self@,
    {
        Claim {
            id: self.id.clone(),
            claimant: self.claimant,
            policy_type: self.policy_type.clone(),
            claim_amount: self.claim_amount,
            description: self.description.clone(),
            supporting_documents: self.supporting_documents.clone(),
            status: self.status,
            timestamp: self.timestamp,
            history: self.history.clone(),
        }
    }
}

impl Claim {
    /// A claim with the given fields.
    pub fn new(
        id: String,
        claimant: Principal,
        policy_type: String,
        claim_amount: u64,
        description: String,
        supporting_documents: Vec<String>,
        status: ClaimStatus,
        timestamp: u64,
        history: Vec<HistoryEntry>,
    ) -> (claim: Claim)
        ensures
            claim@ == (ClaimView {
                id: id@,
                claimant,
                policy_type: policy_type@,
                claim_amount,
                description: description@,
                supporting_documents: supporting_documents.deep_view(),
                status,
                timestamp,
                history: history.deep_view(),
            }),
    {
        Claim {
            id,
            claimant,
            policy_type,
            claim_amount,
            description,
            supporting_documents,
            status,
            timestamp,
            history,
        }
    }

    /// The claim that a submission at time `now` creates, before it has an
    /// identifier.
    pub fn submitted(
        claimant: Principal,
        policy_type: String,
        claim_amount: u64,
        description: String,
        supporting_documents: Vec<String>,
        now: u64,
    ) -> (claim: Claim)
        ensures
            claim@ == ClaimView::submitted(
                claimant,
                policy_type@,
                claim_amount,
                description@,
                supporting_documents.deep_view(),
                now,
            ),
    {
        let mut history: Vec<HistoryEntry> = Vec::new();
        history.push(
            HistoryEntry {
                status: ClaimStatus::Submitted,
                timestamp: now,
                notes: String::from_str("Claim submitted"),
            },
        );
        assert(history.deep_view() =~= seq![
            HistoryEntryView {
                status: ClaimStatus::Submitted,
                timestamp: now,
                notes: submission_notes(),
            },
        ]);
        Claim {
            id: String::new(),
            claimant,
            policy_type,
            claim_amount,
            description,
            supporting_documents,
            status: ClaimStatus::Submitted,
            timestamp: now,
            history,
        }
    }

    /// Gives the claim its identifier.
    pub fn with_id(self, id: String) -> (claim: Claim)
        ensures
            claim@ == self@.with_id(id@),
    {
        Claim {
            id,
            claimant: self.claimant,
            policy_type: self.policy_type,
            claim_amount: self.claim_amount,
            description: self.description,
            supporting_documents: self.supporting_documents,
            status: self.status,
            timestamp: self.timestamp,
            history: self.history,
        }
    }

    /// Moves the claim to `status` and writes the line that says so at the
    /// end of its trail.
    pub fn record(&mut self, status: ClaimStatus, now: u64, notes: String)
        ensures
            final(self)@ == old(self)@.recorded(status, now, notes@),
    {
        let ghost before = self.history.deep_view();
        self.status = status;
        self.history.push(HistoryEntry { status, timestamp: now, notes });
        assert(self.history.deep_view() =~= before.push(
            HistoryEntryView { status, timestamp: now, notes: notes@ },
        ));
    }

    /// The identifier under which the claim is stored; empty before it has one.
    pub fn id(&self) -> (id: &str)
        ensures
            id@ == self@.id,
    {
        self.id.as_str()
    }

    /// The one who submitted the claim.
    pub fn claimant(&self) -> (claimant: Principal)
        ensures
            claimant == self@.claimant,
    {
        self.claimant
    }

    /// The type of the policy, as it was when the claim was submitted.
    pub fn policy_type(&self) -> (policy_type: &str)
        ensures
            policy_type@ == self@.policy_type,
    {
        self.policy_type.as_str()
    }

    /// The amount that the claim asks for.
    pub fn claim_amount(&self) -> (claim_amount: u64)
        ensures
            claim_amount == self@.claim_amount,
    {
        self.claim_amount
    }

    /// What the claimant wrote of the claim.
    pub fn description(&self) -> (description: &str)
        ensures
            description@ == self@.description,
    {
        self.description.as_str()
    }

    /// The documents that came with the claim.
    pub fn supporting_documents(&self) -> (supporting_documents: &Vec<String>)
        ensures
            supporting_documents.deep_view() == self@.supporting_documents,
    {
        &self.supporting_documents
    }

    /// Where the claim stands.
    pub fn status(&self) -> (status: ClaimStatus)
        ensures
            status == self@.status,
    {
        self.status
    }

    /// When the claim was submitted.
    pub fn timestamp(&self) -> (timestamp: u64)
        ensures
            timestamp == self@.timestamp,
    {
        self.timestamp
    }

    /// The audit trail, oldest line first.
    pub fn history(&self) -> (history: &Vec<HistoryEntry>)
        ensures
            history.deep_view() == self@.history,
    {
        &self.history
    }
}

} // verus!
