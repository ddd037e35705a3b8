use candid::Principal;
use insurance_claims::{Claim, ClaimStatus, HistoryEntry, InsuranceClaimProcessor, Policy};

#[test]
fn eligibility_needs_an_active_policy_and_enough_coverage() {
    let me = Principal::from_slice(&[9]);
    let claim = |amount: u64| {
        Claim::submitted(me, "auto".to_string(), amount, "dent".to_string(), Vec::new(), 5)
    };
    let policy = |coverage: u64, active: bool| {
        Policy::new("policy_1".to_string(), me, "auto".to_string(), coverage, active, 1, 1)
    };
    let eligible = InsuranceClaimProcessor::verify_claim_eligibility;
    assert!(eligible(&claim(0), &policy(100, true)));
    assert!(eligible(&claim(99), &policy(100, true)));
    assert!(eligible(&claim(100), &policy(100, true)));
    assert!(!eligible(&claim(101), &policy(100, true)));
    assert!(!eligible(&claim(u64::MAX), &policy(100, true)));
    assert!(eligible(&claim(u64::MAX), &policy(u64::MAX, true)));
    assert!(!eligible(&claim(1), &policy(100, false)));
    assert!(!eligible(&claim(0), &policy(0, false)));
}

#[test]
fn claim_record_adds_one_line_and_sets_status() {
    let me = Principal::from_slice(&[9]);
    let claim =
        Claim::submitted(me, "auto".to_string(), 10, "dent".to_string(), vec!["a".to_string()], 5);
    assert_eq!(claim.id(), "");
    let mut claim = claim.with_id("claim_3".to_string());
    assert_eq!(claim.id(), "claim_3");
    assert_eq!(claim.history().len(), 1);
    claim.record(ClaimStatus::Verified, 6, "checked".to_string());
    assert_eq!(claim.status(), ClaimStatus::Verified);
    assert_eq!(claim.history().len(), 2);
    assert_eq!(claim.history()[0].notes, "Claim submitted");
    assert_eq!(claim.history()[1].status, ClaimStatus::Verified);
    assert_eq!(claim.history()[1].timestamp, 6);
    assert_eq!(claim.history()[1].notes, "checked");
    let copy = claim.clone();
    assert_eq!(copy.id(), "claim_3");
    assert_eq!(copy.history().len(), 2);
    assert_eq!(copy.supporting_documents(), &vec!["a".to_string()]);
}

#[test]
fn claim_is_built_from_its_parts() {
    let me = Principal::from_slice(&[9]);
    let line = HistoryEntry {
        status: ClaimStatus::Submitted,
        timestamp: 3,
        notes: "Claim submitted".to_string(),
    };
    let claim = Claim::new(
        "claim_8".to_string(),
        me,
        "auto".to_string(),
        77,
        "dent".to_string(),
        vec!["photo".to_string()],
        ClaimStatus::Approved,
        3,
        vec![line.clone()],
    );
    assert_eq!(claim.id(), "claim_8");
    assert_eq!(claim.claimant(), me);
    assert_eq!(claim.policy_type(), "auto");
    assert_eq!(claim.claim_amount(), 77);
    assert_eq!(claim.description(), "dent");
    assert_eq!(claim.supporting_documents().len(), 1);
    assert_eq!(claim.status(), ClaimStatus::Approved);
    assert_eq!(claim.timestamp(), 3);
    assert_eq!(claim.history()[0].notes, line.notes);
}

#[test]
fn policy_changes_are_stamped() {
    let me = Principal::from_slice(&[9]);
    let mut policy = Policy::registered("policy_4".to_string(), me, "auto".to_string(), 10, 100);
    assert!(policy.active());
    assert_eq!(policy.created_at(), 100);
    policy.set_coverage(20, 110);
    assert_eq!(policy.coverage_amount(), 20);
    assert_eq!(policy.last_modified(), 110);
    policy.cancel(120);
    assert!(!policy.active());
    assert_eq!(policy.coverage_amount(), 20);
    assert_eq!(policy.last_modified(), 120);
    assert_eq!(policy.created_at(), 100);
    let copy = policy.clone();
    assert_eq!(copy.id(), "policy_4");
    assert_eq!(copy.policy_holder(), me);
    assert!(!copy.active());
}
