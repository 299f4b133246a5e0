use audit_escrow::reward::Rewardtoken;

const ALICE: u64 = 1;
const BOB: u64 = 2;

#[test]
fn test_assert_owner() {
    let contract = Rewardtoken::new(ALICE);
    let contract_owner = contract.owner;
    assert_eq!(contract_owner, ALICE);
}

#[test]
fn test_failure_on_non_owner_call() {
    let mut contract = Rewardtoken::new(ALICE);
    let hash = "asdf";
    let _res = contract.mint(BOB, 1, 100, 0, 100, hash.to_string(), false, BOB);
    assert!(_res.is_err());
}

#[test]
fn test_successful_audits_increment() {
    let mut contract = Rewardtoken::new(ALICE);
    let hash = "asdf";
    let _x = contract.mint(BOB, 1, 100, 5, 100, hash.to_string(), true, ALICE);
    assert_eq!(contract.show_auditors_record(BOB).unwrap().successful_audits, 1);
}

#[test]
fn test_unsuccessful_audits_increment() {
    let mut contract = Rewardtoken::new(ALICE);
    let hash = "asdf";
    let _x = contract.mint(BOB, 1, 100, 5, 100, hash.to_string(), false, ALICE);
    assert_eq!(contract.show_auditors_record(BOB).unwrap().unsuccessful_audits, 1);
}

#[test]
fn test_successful_entry_in_rewarded_tokens_mapping() {
    let mut contract = Rewardtoken::new(ALICE);
    let hash = "asdf";
    let _x = contract.mint(BOB, 1, 100, 0, 100, hash.to_string(), true, ALICE);
    assert_eq!(contract.show_reward_details(0).unwrap().amount, 100);
}

// Repeated mints keep one record per auditor and count both outcomes.
#[test]
fn counters_accumulate_per_auditor() {
    let mut contract = Rewardtoken::new(ALICE);
    let _ = contract.mint(BOB, 1, 100, 0, 10, "a".to_string(), true, ALICE);
    let _ = contract.mint(BOB, 2, 80, 1, 20, "b".to_string(), true, ALICE);
    let _ = contract.mint(BOB, 3, 60, 2, 30, "c".to_string(), false, ALICE);
    let stats = contract.show_auditors_record(BOB).unwrap();
    assert_eq!(stats.successful_audits, 2);
    assert_eq!(stats.unsuccessful_audits, 1);
    assert_eq!(contract.current_id, 3);
    assert_eq!(contract.show_reward_details(1).unwrap().amount, 20);
    assert_eq!(contract.show_reward_details(2).unwrap().ipfs_hash, "c");
    assert!(contract.show_reward_details(3).is_none());
    assert!(contract.show_auditors_record(ALICE).is_none());
}
