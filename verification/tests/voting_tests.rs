use audit_escrow::escrow::{AuditStatus, Escrow};
use audit_escrow::voting::{Arbiter, AuditArbitrationResult, Error, Voting};

const ALICE: u64 = 1;
const BOB: u64 = 2;
const CHARLIE: u64 = 3;

fn three_arbiters() -> Vec<Arbiter> {
    vec![
        Arbiter { voter_address: ALICE, has_voted: false },
        Arbiter { voter_address: BOB, has_voted: false },
        Arbiter { voter_address: CHARLIE, has_voted: false },
    ]
}

#[test]
fn test_1_successful_creation_of_vote_poll() {
    let mut contract = Voting::new(CHARLIE, ALICE);
    let audit_id: u32 = 1;
    let buffer_for_admin: u64 = 100000000000;
    let _x = contract.create_new_poll(audit_id, buffer_for_admin, three_arbiters(), ALICE);
    let ans = contract.get_poll_info(0);
    assert!(ans.unwrap().is_active);
}

#[test]
fn test_2_successful_increment_of_poll_no() {
    let mut contract = Voting::new(CHARLIE, ALICE);
    let audit_id: u32 = 1;
    let buffer_for_admin: u64 = 100000000000;
    let _x = contract.create_new_poll(audit_id, buffer_for_admin, three_arbiters(), ALICE);
    let ans = contract.get_current_vote_id();
    assert_eq!(ans, 1);
}

#[test]
fn test_3_successful_know_your_escrow() {
    let contract = Voting::new(CHARLIE, ALICE);
    let ans = contract.know_your_escrow();
    assert_eq!(ans, CHARLIE);
}

#[test]
fn test_4_successful_know_your_admin() {
    let contract = Voting::new(CHARLIE, ALICE);
    let ans = contract.know_your_admin();
    assert_eq!(ans, ALICE);
}

#[test]
fn test_5_failure_on_non_admin_creating_poll() {
    let mut contract = Voting::new(CHARLIE, ALICE);
    let audit_id: u32 = 1;
    let buffer_for_admin: u64 = 100000000000;
    let _x = contract.create_new_poll(audit_id, buffer_for_admin, three_arbiters(), BOB);
    assert!(matches!(_x, Err(Error::UnAuthorisedCall)));
}

#[test]
fn test_6_successful_first_or_mid_voters_voting() {
    let mut contract = Voting::new(CHARLIE, ALICE);
    let audit_id: u32 = 1;
    let buffer_for_admin: u64 = 100000000000;
    let _x = contract.create_new_poll(audit_id, buffer_for_admin, three_arbiters(), ALICE);
    let _y = contract.vote(0, AuditArbitrationResult::NoDiscrepancies, true, BOB);
    let _z = contract.get_poll_info(0);
    assert_eq!(_z.unwrap().available_votes, 1);
}

#[test]
fn test_7_successful_final_vote() {
    let mut contract = Voting::new(CHARLIE, ALICE);
    let audit_id: u32 = 1;
    let buffer_for_admin: u64 = 100000000000;
    let arbiters = vec![
        Arbiter { voter_address: BOB, has_voted: false },
        Arbiter { voter_address: CHARLIE, has_voted: false },
    ];
    let _x = contract.create_new_poll(audit_id, buffer_for_admin, arbiters, ALICE);
    let _y = contract.vote(0, AuditArbitrationResult::NoDiscrepancies, true, BOB);
    let _y = contract.vote(0, AuditArbitrationResult::NoDiscrepancies, true, CHARLIE);
    let _z = contract.get_poll_info(0);
    assert_eq!(_z.unwrap().available_votes, 2);
}

#[test]
fn test_8_failure_when_wrong_escrow_id_provided() {
    let mut contract = Voting::new(CHARLIE, ALICE);
    let audit_id: u32 = 1;
    let buffer_for_admin: u64 = 100000000000;
    let arbiters = vec![
        Arbiter { voter_address: BOB, has_voted: false },
        Arbiter { voter_address: CHARLIE, has_voted: false },
    ];
    let _x = contract.create_new_poll(audit_id, buffer_for_admin, arbiters, ALICE);
    let _y = contract.vote(0, AuditArbitrationResult::NoDiscrepancies, true, BOB);
    let _y = contract.vote(0, AuditArbitrationResult::NoDiscrepancies, false, CHARLIE);
    assert!(matches!(_y, Err(Error::AssessmentFailed)));
    let _z = contract.get_poll_info(0);
    assert_eq!(_z.unwrap().available_votes, 1);
}

// A poll's active flag flips to false exactly once: after a rejection
// finalizes it, neither another vote nor a forced one touches it again.
#[test]
fn poll_deactivates_at_most_once() {
    let mut contract = Voting::new(CHARLIE, ALICE);
    let _ = contract.create_new_poll(1, 0, three_arbiters(), ALICE);
    let r1 = contract.vote(0, AuditArbitrationResult::Reject, true, BOB);
    assert!(r1.is_ok());
    assert!(!contract.get_poll_info(0).unwrap().is_active);
    let r2 = contract.vote(0, AuditArbitrationResult::NoDiscrepancies, true, ALICE);
    assert!(matches!(r2, Err(Error::ResultAlreadyPublished)));
    let r3 = contract.force_vote(0, true, ALICE, 10);
    assert!(matches!(r3, Err(Error::ResultAlreadyPublished)));
    assert!(!contract.get_poll_info(0).unwrap().is_active);
    assert_eq!(contract.get_poll_info(0).unwrap().available_votes, 1);
}

// An arbiter can vote only once.
#[test]
fn double_vote_fails() {
    let mut contract = Voting::new(CHARLIE, ALICE);
    let _ = contract.create_new_poll(1, 100000000000, three_arbiters(), ALICE);
    let _ = contract.vote(0, AuditArbitrationResult::MinorDiscrepancies, true, BOB);
    let r = contract.vote(0, AuditArbitrationResult::NoDiscrepancies, true, BOB);
    assert!(matches!(r, Err(Error::VotingFailed)));
}

// A caller outside the roster is turned away.
#[test]
fn outsider_vote_fails() {
    let mut contract = Voting::new(CHARLIE, ALICE);
    let _ = contract.create_new_poll(1, 100000000000, three_arbiters(), ALICE);
    let r = contract.vote(0, AuditArbitrationResult::NoDiscrepancies, true, 9);
    assert!(matches!(r, Err(Error::UnAuthorisedCall)));
}

// Mid votes accumulate the configured deltas: two minor votes add the
// seven-day extension and the haircut of 5 twice.
#[test]
fn mid_votes_accumulate_configured_deltas() {
    let mut contract = Voting::new(CHARLIE, ALICE);
    let _ = contract.create_new_poll(1, 100000000000, three_arbiters(), ALICE);
    let _ = contract.vote(0, AuditArbitrationResult::MinorDiscrepancies, true, ALICE);
    let _ = contract.vote(0, AuditArbitrationResult::ModerateDiscrepancies, true, BOB);
    let p = contract.get_poll_info(0).unwrap();
    assert_eq!(p.decided_deadline, 604800000 + 1296000000);
    assert_eq!(p.decided_haircut, 5 + 15);
    assert!(p.is_active);
}

// The final vote averages both accumulators over the final vote count.
#[test]
fn final_vote_averages_accumulators() {
    let mut contract = Voting::new(CHARLIE, ALICE);
    let _ = contract.create_new_poll(1, 100000000000, three_arbiters(), ALICE);
    let _ = contract.vote(0, AuditArbitrationResult::MinorDiscrepancies, true, ALICE);
    let _ = contract.vote(0, AuditArbitrationResult::ModerateDiscrepancies, true, BOB);
    let r = contract.vote(0, AuditArbitrationResult::MinorDiscrepancies, true, CHARLIE);
    assert!(r.is_ok());
    let p = contract.get_poll_info(0).unwrap();
    assert_eq!(p.decided_deadline, (604800000 + 1296000000 + 604800000) / 3);
    assert_eq!(p.decided_haircut, (5 + 15 + 5) / 3);
    assert!(!p.is_active);
    assert_eq!(p.available_votes, 3);
}

// The admin cannot force a result before the override time, and nobody else
// can force one at all.
#[test]
fn force_vote_gates() {
    let mut contract = Voting::new(CHARLIE, ALICE);
    let _ = contract.create_new_poll(1, 500, three_arbiters(), ALICE);
    let r1 = contract.force_vote(0, true, BOB, 1000);
    assert!(matches!(r1, Err(Error::UnAuthorisedCall)));
    let r2 = contract.force_vote(0, true, ALICE, 499);
    assert!(matches!(r2, Err(Error::RightsNotActivatedYet)));
    let r3 = contract.force_vote(0, true, ALICE, 500);
    assert!(r3.is_ok());
    assert!(!contract.get_poll_info(0).unwrap().is_active);
}

// Forcing after some votes stores the averaged accumulators.
#[test]
fn force_vote_averages_over_cast_votes() {
    let mut contract = Voting::new(CHARLIE, ALICE);
    let _ = contract.create_new_poll(1, 500, three_arbiters(), ALICE);
    let _ = contract.vote(0, AuditArbitrationResult::MinorDiscrepancies, true, ALICE);
    let _ = contract.vote(0, AuditArbitrationResult::ModerateDiscrepancies, true, BOB);
    let r = contract.force_vote(0, true, ALICE, 1000);
    assert!(r.is_ok());
    let p = contract.get_poll_info(0).unwrap();
    assert_eq!(p.decided_deadline, (604800000 + 1296000000) / 2);
    assert_eq!(p.decided_haircut, (5 + 15) / 2);
    assert_eq!(p.available_votes, 2);
    assert!(!p.is_active);
}

// Treasury release pays the whole amount to the admin when nobody voted,
// and otherwise an equal truncating share to each arbiter who voted.
#[test]
fn release_treasury_funds_split() {
    let mut contract = Voting::new(CHARLIE, ALICE);
    let _ = contract.create_new_poll(1, 0, three_arbiters(), ALICE);
    let r0 = contract.release_treasury_funds(0, 10, ALICE);
    assert!(matches!(r0, Err(Error::UnAuthorisedCall)));
    let _ = contract.vote(0, AuditArbitrationResult::NoDiscrepancies, true, ALICE);
    let _ = contract.vote(0, AuditArbitrationResult::NoDiscrepancies, true, CHARLIE);
    let _ = contract.force_vote(0, true, ALICE, 0);
    let r = contract.release_treasury_funds(0, 11, ALICE);
    assert!(r.is_ok());
    assert_eq!(contract.payouts, vec![(ALICE, 5), (CHARLIE, 5)]);
}

// With no votes cast, the whole released amount goes to the admin.
#[test]
fn release_treasury_funds_no_voters() {
    let mut contract = Voting::new(CHARLIE, ALICE);
    let _ = contract.create_new_poll(1, 0, three_arbiters(), ALICE);
    let _ = contract.force_vote(0, true, ALICE, 0);
    let r = contract.release_treasury_funds(0, 42, ALICE);
    assert!(r.is_ok());
    assert_eq!(contract.payouts, vec![(ALICE, 42)]);
}

// The configuration setters are admin-gated and validate their ranges.
#[test]
fn configuration_setters() {
    let mut contract = Voting::new(CHARLIE, ALICE);
    assert_eq!(contract.get_haircut_info(true), 5);
    assert_eq!(contract.get_haircut_info(false), 15);
    assert_eq!(contract.get_time_extension_info(true), 604800000);
    assert_eq!(contract.get_time_extension_info(false), 1296000000);
    assert_eq!(contract.know_arbiters_share(), 5);
    let r1 = contract.change_haircut_for_discrepancies(true, 50, BOB);
    assert!(matches!(r1, Err(Error::UnAuthorisedCall)));
    let r2 = contract.change_haircut_for_discrepancies(true, 91, ALICE);
    assert!(matches!(r2, Err(Error::ValueTooHigh)));
    let r3 = contract.change_haircut_for_discrepancies(true, 50, ALICE);
    assert!(r3.is_ok());
    assert_eq!(contract.get_haircut_info(true), 50);
    let r4 = contract.change_time_extension_for_discrepancies(false, 86399999, ALICE);
    assert!(matches!(r4, Err(Error::ValueTooLow)));
    let r5 = contract.change_time_extension_for_discrepancies(false, 86400000, ALICE);
    assert!(r5.is_ok());
    assert_eq!(contract.get_time_extension_info(false), 86400000);
    let r6 = contract.change_arbiters_share(7, ALICE);
    assert!(r6.is_ok());
    assert_eq!(contract.know_arbiters_share(), 7);
}

// Flushing tokens is admin-gated, reports a failed transfer, and records
// the flushed token's address with the movement.
#[test]
fn flush_out_tokens_gates() {
    let mut contract = Voting::new(CHARLIE, ALICE);
    let r1 = contract.flush_out_tokens(8, 100, true, BOB);
    assert!(matches!(r1, Err(Error::UnAuthorisedCall)));
    let r2 = contract.flush_out_tokens(8, 100, false, ALICE);
    assert!(matches!(r2, Err(Error::TransferFailed)));
    let r3 = contract.flush_out_tokens(8, 100, true, ALICE);
    assert!(r3.is_ok());
    assert_eq!(contract.token_flushes, vec![(8, ALICE, 100)]);
    assert!(contract.payouts.is_empty());
}

// A roster handed in with a member already marked as having voted is
// stored unmarked: the poll starts at zero votes, the member can vote, and
// treasury shares go only to arbiters whose votes were counted.
#[test]
fn premarked_roster_is_stored_unmarked() {
    let mut contract = Voting::new(CHARLIE, ALICE);
    let arbiters = vec![
        Arbiter { voter_address: BOB, has_voted: true },
        Arbiter { voter_address: CHARLIE, has_voted: false },
    ];
    let _ = contract.create_new_poll(1, 0, arbiters, ALICE);
    let p = contract.get_poll_info(0).unwrap();
    assert_eq!(p.available_votes, 0);
    assert!(p.arbiters.iter().all(|a| !a.has_voted));
    let r = contract.vote(0, AuditArbitrationResult::NoDiscrepancies, true, BOB);
    assert!(r.is_ok());
    let _ = contract.force_vote(0, true, ALICE, 0);
    let rel = contract.release_treasury_funds(0, 100, ALICE);
    assert!(rel.is_ok());
    assert_eq!(contract.payouts, vec![(BOB, 100)]);
}

// Scenario: a three-arbiter poll over a disputed audit; two clean verdicts
// and a clean final one leave no decided extension, so the coordinator
// assesses the audit positively through the ledger: the audit completes,
// the poll deactivates and the vote count reads three.
#[test]
fn clean_final_vote_completes_audit_through_ledger() {
    const COORDINATOR: u64 = 9;
    let mut ledger = Escrow::new(ALICE);
    let _ = ledger.create_new_payment(100, COORDINATOR, 1000, 7, true, ALICE, 0);
    let _ = ledger.assign_audit(0, BOB, 100, 1000, true, ALICE, 0);
    let _ = ledger.mark_submitted(0, "h".to_string(), BOB, 10);
    let _ = ledger.assess_audit(0, false, true, ALICE);
    let mut contract = Voting::new(CHARLIE, ALICE);
    let _ = contract.create_new_poll(0, 100000000000, three_arbiters(), ALICE);
    let r1 = contract.vote_on_audit(
        &mut ledger,
        0,
        AuditArbitrationResult::NoDiscrepancies,
        ALICE,
        COORDINATOR,
        20,
        true,
    );
    assert!(r1.is_ok());
    let r2 = contract.vote_on_audit(
        &mut ledger,
        0,
        AuditArbitrationResult::NoDiscrepancies,
        BOB,
        COORDINATOR,
        20,
        true,
    );
    assert!(r2.is_ok());
    let r3 = contract.vote_on_audit(
        &mut ledger,
        0,
        AuditArbitrationResult::NoDiscrepancies,
        CHARLIE,
        COORDINATOR,
        20,
        true,
    );
    assert!(r3.is_ok());
    let p = contract.get_poll_info(0).unwrap();
    assert!(!p.is_active);
    assert_eq!(p.available_votes, 3);
    let rec = ledger.get_paymentinfo(0).unwrap();
    assert!(matches!(rec.currentstatus, AuditStatus::AuditCompleted));
}

// A rejecting vote finalizes at once: the coordinator assesses the audit
// negatively, which expires it and refunds the patron's 95 percent.
#[test]
fn reject_vote_expires_audit_through_ledger() {
    const COORDINATOR: u64 = 9;
    let mut ledger = Escrow::new(ALICE);
    let _ = ledger.create_new_payment(100, COORDINATOR, 1000, 7, true, ALICE, 0);
    let _ = ledger.assign_audit(0, BOB, 100, 1000, true, ALICE, 0);
    let _ = ledger.mark_submitted(0, "h".to_string(), BOB, 10);
    let _ = ledger.assess_audit(0, false, true, ALICE);
    let mut contract = Voting::new(CHARLIE, ALICE);
    let _ = contract.create_new_poll(0, 100000000000, three_arbiters(), ALICE);
    let r = contract.vote_on_audit(
        &mut ledger,
        0,
        AuditArbitrationResult::Reject,
        BOB,
        COORDINATOR,
        20,
        true,
    );
    assert!(r.is_ok());
    assert!(!contract.get_poll_info(0).unwrap().is_active);
    let rec = ledger.get_paymentinfo(0).unwrap();
    assert!(matches!(rec.currentstatus, AuditStatus::AuditExpired));
}

// A final vote with a decided extension asks the ledger to move the
// deadline and take the haircut: the audit's value shrinks accordingly.
#[test]
fn final_vote_with_extension_reshapes_audit() {
    const COORDINATOR: u64 = 9;
    let mut ledger = Escrow::new(ALICE);
    let _ = ledger.create_new_payment(100, COORDINATOR, 1000, 7, true, ALICE, 0);
    let _ = ledger.assign_audit(0, BOB, 100, 1000, true, ALICE, 0);
    let _ = ledger.mark_submitted(0, "h".to_string(), BOB, 10);
    let _ = ledger.assess_audit(0, false, true, ALICE);
    let mut contract = Voting::new(CHARLIE, ALICE);
    let arbiters = vec![
        Arbiter { voter_address: BOB, has_voted: false },
        Arbiter { voter_address: CHARLIE, has_voted: false },
    ];
    let _ = contract.create_new_poll(0, 100000000000, arbiters, ALICE);
    let _ = contract.vote_on_audit(
        &mut ledger,
        0,
        AuditArbitrationResult::MinorDiscrepancies,
        BOB,
        COORDINATOR,
        20,
        true,
    );
    let r = contract.vote_on_audit(
        &mut ledger,
        0,
        AuditArbitrationResult::MinorDiscrepancies,
        CHARLIE,
        COORDINATOR,
        20,
        true,
    );
    assert!(r.is_ok());
    let p = contract.get_poll_info(0).unwrap();
    assert!(!p.is_active);
    assert_eq!(p.decided_deadline, 604800000);
    assert_eq!(p.decided_haircut, 5);
    let rec = ledger.get_paymentinfo(0).unwrap();
    // haircut 5 to the patron, share 5 to the provider, 90 percent stays
    assert_eq!(rec.value, 90);
    assert_eq!(rec.deadline, 604800000 + 20);
}

// Forcing a poll with votes and a decided extension drives the same ledger
// call as the final vote would.
#[test]
fn forced_vote_extends_audit_through_ledger() {
    const COORDINATOR: u64 = 9;
    let mut ledger = Escrow::new(ALICE);
    let _ = ledger.create_new_payment(100, COORDINATOR, 1000, 7, true, ALICE, 0);
    let _ = ledger.assign_audit(0, BOB, 100, 1000, true, ALICE, 0);
    let _ = ledger.mark_submitted(0, "h".to_string(), BOB, 10);
    let _ = ledger.assess_audit(0, false, true, ALICE);
    let mut contract = Voting::new(CHARLIE, ALICE);
    let _ = contract.create_new_poll(0, 500, three_arbiters(), ALICE);
    let _ = contract.vote(0, AuditArbitrationResult::ModerateDiscrepancies, true, BOB);
    let r = contract.force_vote_on_audit(&mut ledger, 0, ALICE, COORDINATOR, 1000, true);
    assert!(r.is_ok());
    let p = contract.get_poll_info(0).unwrap();
    assert!(!p.is_active);
    assert_eq!(p.decided_deadline, 1296000000);
    assert_eq!(p.decided_haircut, 15);
    let rec = ledger.get_paymentinfo(0).unwrap();
    // haircut 15 to the patron, share 5 to the provider, 80 percent stays
    assert_eq!(rec.value, 80);
    assert_eq!(rec.deadline, 1296000000 + 1000);
}
