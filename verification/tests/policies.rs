use candid::Principal;
use insurance_claims::query::get_policy;
use insurance_claims::update::{deactivate_policy, register_policy, update_policy_coverage};
use insurance_claims::{ClaimError, InsuranceClaimProcessor};

fn holder() -> Principal {
    Principal::from_slice(&[7; 29])
}

fn stranger() -> Principal {
    Principal::anonymous()
}

#[test]
fn new_store_is_empty() {
    let store = InsuranceClaimProcessor::new();
    assert_eq!(store.claim_counter(), 0);
    assert_eq!(store.policy_counter(), 0);
    assert!(store.policy("policy_1").is_none());
    assert!(store.claim("claim_1").is_none());
    let store = InsuranceClaimProcessor::default();
    assert_eq!(store.policy_counter(), 0);
}

#[test]
fn registered_policy_holds_what_was_given() {
    let mut store = InsuranceClaimProcessor::new();
    let id = register_policy(&mut store, holder(), 42, "home".to_string(), 250_000).unwrap();
    assert_eq!(id, "policy_1");
    let policy = get_policy(&store, id).unwrap();
    assert_eq!(policy.id(), "policy_1");
    assert_eq!(policy.policy_holder(), holder());
    assert_eq!(policy.policy_type(), "home");
    assert_eq!(policy.coverage_amount(), 250_000);
    assert!(policy.active());
    assert_eq!(policy.created_at(), 42);
    assert_eq!(policy.last_modified(), 42);
}

#[test]
fn policy_without_type_is_invalid() {
    let mut store = InsuranceClaimProcessor::new();
    let result = register_policy(&mut store, holder(), 42, String::new(), 1000);
    assert_eq!(result, Err(ClaimError::InvalidInput));
    assert_eq!(store.policy_counter(), 0);
}

#[test]
fn policy_without_coverage_is_invalid() {
    let mut store = InsuranceClaimProcessor::new();
    let result = register_policy(&mut store, holder(), 42, "home".to_string(), 0);
    assert_eq!(result, Err(ClaimError::InvalidInput));
    assert_eq!(store.policy_counter(), 0);
    assert_eq!(get_policy(&store, "policy_1".to_string()).err(), Some(ClaimError::NotFound));
}

#[test]
fn policies_are_numbered_in_order() {
    let mut store = InsuranceClaimProcessor::new();
    for n in 1..=12u64 {
        let id = register_policy(&mut store, holder(), n, "life".to_string(), n).unwrap();
        assert_eq!(id, format!("policy_{}", n));
        assert_eq!(store.policy_counter(), n);
    }
    for n in 1..=12u64 {
        let policy = get_policy(&store, format!("policy_{}", n)).unwrap();
        assert_eq!(policy.coverage_amount(), n);
        assert_eq!(policy.created_at(), n);
    }
}

#[test]
fn refused_registration_uses_no_number() {
    let mut store = InsuranceClaimProcessor::new();
    assert!(register_policy(&mut store, holder(), 1, String::new(), 5).is_err());
    let id = register_policy(&mut store, holder(), 2, "life".to_string(), 5).unwrap();
    assert_eq!(id, "policy_1");
}

#[test]
fn cancelled_policy_is_inactive() {
    let mut store = InsuranceClaimProcessor::new();
    let id = register_policy(&mut store, holder(), 42, "home".to_string(), 1000).unwrap();
    assert_eq!(deactivate_policy(&mut store, holder(), 50, id.clone()), Ok(()));
    let policy = get_policy(&store, id).unwrap();
    assert!(!policy.active());
    assert_eq!(policy.coverage_amount(), 1000);
    assert_eq!(policy.created_at(), 42);
    assert_eq!(policy.last_modified(), 50);
}

#[test]
fn cancelling_twice_is_accepted() {
    let mut store = InsuranceClaimProcessor::new();
    let id = register_policy(&mut store, holder(), 42, "home".to_string(), 1000).unwrap();
    assert_eq!(deactivate_policy(&mut store, holder(), 50, id.clone()), Ok(()));
    assert_eq!(deactivate_policy(&mut store, holder(), 60, id.clone()), Ok(()));
    let policy = get_policy(&store, id).unwrap();
    assert!(!policy.active());
    assert_eq!(policy.last_modified(), 60);
}

#[test]
fn stranger_cannot_cancel() {
    let mut store = InsuranceClaimProcessor::new();
    let id = register_policy(&mut store, holder(), 42, "home".to_string(), 1000).unwrap();
    assert_eq!(
        deactivate_policy(&mut store, stranger(), 50, id.clone()),
        Err(ClaimError::Unauthorized)
    );
    let policy = get_policy(&store, id).unwrap();
    assert!(policy.active());
    assert_eq!(policy.last_modified(), 42);
}

#[test]
fn unknown_policy_cannot_be_cancelled() {
    let mut store = InsuranceClaimProcessor::new();
    assert_eq!(
        deactivate_policy(&mut store, holder(), 50, "policy_1".to_string()),
        Err(ClaimError::NotFound)
    );
    assert_eq!(
        deactivate_policy(&mut store, holder(), 50, String::new()),
        Err(ClaimError::NotFound)
    );
}

#[test]
fn coverage_is_updated() {
    let mut store = InsuranceClaimProcessor::new();
    let id = register_policy(&mut store, holder(), 42, "home".to_string(), 1000).unwrap();
    assert_eq!(update_policy_coverage(&mut store, holder(), 70, id.clone(), 2000), Ok(()));
    let policy = get_policy(&store, id).unwrap();
    assert_eq!(policy.coverage_amount(), 2000);
    assert_eq!(policy.created_at(), 42);
    assert_eq!(policy.last_modified(), 70);
    assert!(policy.active());
    assert_eq!(policy.policy_holder(), holder());
    assert_eq!(policy.policy_type(), "home");
}

#[test]
fn coverage_cannot_be_set_to_zero() {
    let mut store = InsuranceClaimProcessor::new();
    let id = register_policy(&mut store, holder(), 42, "home".to_string(), 1000).unwrap();
    assert_eq!(
        update_policy_coverage(&mut store, holder(), 70, id.clone(), 0),
        Err(ClaimError::InvalidInput)
    );
    assert_eq!(get_policy(&store, id).unwrap().coverage_amount(), 1000);
}

#[test]
fn stranger_cannot_change_coverage() {
    let mut store = InsuranceClaimProcessor::new();
    let id = register_policy(&mut store, holder(), 42, "home".to_string(), 1000).unwrap();
    assert_eq!(
        update_policy_coverage(&mut store, stranger(), 70, id.clone(), 2000),
        Err(ClaimError::Unauthorized)
    );
    assert_eq!(
        update_policy_coverage(&mut store, stranger(), 70, id.clone(), 0),
        Err(ClaimError::Unauthorized)
    );
    assert_eq!(get_policy(&store, id).unwrap().coverage_amount(), 1000);
}

#[test]
fn coverage_of_unknown_policy_cannot_change() {
    let mut store = InsuranceClaimProcessor::new();
    assert_eq!(
        update_policy_coverage(&mut store, holder(), 70, "policy_9".to_string(), 2000),
        Err(ClaimError::NotFound)
    );
    assert_eq!(
        update_policy_coverage(&mut store, holder(), 70, "policy_9".to_string(), 0),
        Err(ClaimError::NotFound)
    );
}

#[test]
fn zero_coverage_is_reported_before_cancellation() {
    let mut store = InsuranceClaimProcessor::new();
    let id = register_policy(&mut store, holder(), 42, "home".to_string(), 1000).unwrap();
    deactivate_policy(&mut store, holder(), 50, id.clone()).unwrap();
    assert_eq!(
        update_policy_coverage(&mut store, holder(), 70, id, 0),
        Err(ClaimError::InvalidInput)
    );
}

#[test]
fn cancelled_policy_stays_cancelled_through_other_operations() {
    let mut store = InsuranceClaimProcessor::new();
    let id = register_policy(&mut store, holder(), 1, "home".to_string(), 1000).unwrap();
    deactivate_policy(&mut store, holder(), 2, id.clone()).unwrap();
    let _ = register_policy(&mut store, holder(), 3, "auto".to_string(), 10);
    let _ = update_policy_coverage(&mut store, holder(), 4, id.clone(), 5000);
    let _ = deactivate_policy(&mut store, holder(), 5, id.clone());
    let _ = deactivate_policy(&mut store, stranger(), 6, id.clone());
    let policy = get_policy(&store, id).unwrap();
    assert!(!policy.active());
    assert_eq!(policy.coverage_amount(), 1000);
}

#[test]
fn principals_are_told_apart_by_their_bytes() {
    let mut store = InsuranceClaimProcessor::new();
    let id = register_policy(&mut store, Principal::from_slice(&[0]), 1, "home".to_string(), 10)
        .unwrap();
    assert_eq!(
        deactivate_policy(&mut store, Principal::from_slice(&[]), 2, id.clone()),
        Err(ClaimError::Unauthorized)
    );
    assert_eq!(
        deactivate_policy(&mut store, Principal::from_slice(&[0, 0]), 2, id.clone()),
        Err(ClaimError::Unauthorized)
    );
    assert_eq!(deactivate_policy(&mut store, Principal::from_slice(&[0]), 2, id), Ok(()));
}
