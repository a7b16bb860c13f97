//! Lifecycle behaviour of the commitment registry, driven as the host would
//! drive it: explicit clock values and caller identities per call.

use public_commitment_fund::commitment::Status;
use public_commitment_fund::effects::{Event, Transfer};
use public_commitment_fund::registry::PublicCommitmentFund;

const INIT_TS: u64 = 1_000;
const ONE_EGLD: u128 = 1_000_000_000_000_000_000;
const CREATOR: u64 = 10;
const RECIPIENT: u64 = 20;
const STRANGER: u64 = 30;

fn setup() -> PublicCommitmentFund {
    PublicCommitmentFund::init()
}

fn create_default(fund: &mut PublicCommitmentFund, deadline: u64, value: u128) {
    let r = fund.create_commitment(
        b"Ship weekly report".to_vec(),
        RECIPIENT,
        deadline,
        None,
        value,
        INIT_TS,
        CREATOR,
    );
    assert!(r.is_ok());
}

#[test]
fn create_commitment_stores_data_and_id() {
    let mut fund = setup();
    let deadline = INIT_TS + 1_000;

    create_default(&mut fund, deadline, ONE_EGLD);

    assert_eq!(fund.next_id(), 2u64);
    assert_eq!(fund.get_total_ids(), 1u64);
    assert_eq!(fund.get_ids_page(0, 1), vec![1u64]);

    let c = fund.get_commitment(1).unwrap();
    assert_eq!(c.id, 1u64);
    assert_eq!(c.creator, CREATOR);
    assert_eq!(c.recipient, RECIPIENT);
    assert_eq!(c.amount, ONE_EGLD);
    assert_eq!(c.deadline, deadline);
    assert_eq!(c.cooldown_seconds, 86_400u64);
    assert_eq!(c.status, Status::Active);
    assert_eq!(c.proof_submitted_at, 0u64);
    assert_eq!(c.finalized_at, 0u64);
}

#[test]
fn create_validations_enforced() {
    let mut fund = setup();

    // Zero amount
    let e = fund
        .create_commitment(b"Title".to_vec(), RECIPIENT, INIT_TS + 1_000, None, 0, INIT_TS, CREATOR)
        .unwrap_err();
    assert_eq!(e.message(), "Amount must be > 0");

    // Deadline too soon
    let e = fund
        .create_commitment(b"Title".to_vec(), RECIPIENT, INIT_TS + 299, None, 1, INIT_TS, CREATOR)
        .unwrap_err();
    assert_eq!(e.message(), "Deadline too soon");

    // Zero recipient
    let e = fund
        .create_commitment(b"Title".to_vec(), 0, INIT_TS + 1_000, None, 1, INIT_TS, CREATOR)
        .unwrap_err();
    assert_eq!(e.message(), "Recipient cannot be zero address");

    // Title too long
    let long_title = vec![b'x'; 65];
    let e = fund
        .create_commitment(long_title, RECIPIENT, INIT_TS + 1_000, None, 1, INIT_TS, CREATOR)
        .unwrap_err();
    assert_eq!(e.message(), "Title too long");

    // No rejected creation stored anything or advanced the counter.
    assert_eq!(fund.get_total_ids(), 0u64);
    assert_eq!(fund.next_id(), 1u64);
}

#[test]
fn submit_proof_allows_deadline_boundary_and_blocks_overwrite() {
    let mut fund = setup();
    let deadline = INIT_TS + 700;
    create_default(&mut fund, deadline, ONE_EGLD);

    // Boundary: now == deadline is allowed.
    let r = fund.submit_proof(1, b"https://example.com/proof/1".to_vec(), deadline, CREATOR);
    assert!(r.is_ok());

    let c = fund.get_commitment(1).unwrap();
    assert_eq!(c.status, Status::Completed);
    assert_eq!(c.proof_submitted_at, deadline);
    assert_eq!(c.proof_hash.len(), 32usize);

    // Overwrite must fail.
    let e = fund
        .submit_proof(1, b"https://example.com/proof/overwrite".to_vec(), deadline, CREATOR)
        .unwrap_err();
    assert_eq!(e.message(), "Commitment is not active");
}

#[test]
fn submit_proof_rejects_after_deadline_and_non_creator() {
    let mut fund = setup();
    let deadline = INIT_TS + 700;
    create_default(&mut fund, deadline, ONE_EGLD);

    // Non-creator
    let e = fund
        .submit_proof(1, b"https://example.com/proof".to_vec(), INIT_TS, STRANGER)
        .unwrap_err();
    assert_eq!(e.message(), "Only creator can submit proof");

    // After deadline
    let e = fund
        .submit_proof(1, b"https://example.com/proof".to_vec(), deadline + 1, CREATOR)
        .unwrap_err();
    assert_eq!(e.message(), "Deadline passed");
}

#[test]
fn finalize_active_marks_failed_and_double_finalize_reverts() {
    let mut fund = setup();
    let deadline = INIT_TS + 700;
    create_default(&mut fund, deadline, ONE_EGLD);

    let e = fund.finalize(1, INIT_TS).unwrap_err();
    assert_eq!(e.message(), "Deadline not reached");

    let eff = fund.finalize(1, deadline + 1).unwrap();
    assert!(eff.transfer.is_none());

    let c = fund.get_commitment(1).unwrap();
    assert_eq!(c.status, Status::Failed);
    assert_eq!(c.finalized_at, deadline + 1);

    let e = fund.finalize(1, deadline + 1).unwrap_err();
    assert_eq!(e.message(), "Commitment cannot be finalized");
}

#[test]
fn finalize_completed_refunds_creator() {
    let mut fund = setup();
    let deadline = INIT_TS + 700;
    create_default(&mut fund, deadline, ONE_EGLD);

    let r = fund.submit_proof(1, b"https://example.com/proof".to_vec(), deadline, CREATOR);
    assert!(r.is_ok());

    // Any caller may finalize.
    let eff = fund.finalize(1, deadline + 1).unwrap();
    assert_eq!(eff.transfer, Some(Transfer { id: 1, to: CREATOR, amount: ONE_EGLD }));
    match eff.event {
        Event::Refunded { id } => assert_eq!(id, 1u64),
        _ => panic!("expected a Refunded event"),
    }

    let c = fund.get_commitment(1).unwrap();
    assert_eq!(c.status, Status::Refunded);
    assert_eq!(c.finalized_at, deadline + 1);
}

#[test]
fn claim_requires_failed_and_cooldown() {
    let mut fund = setup();
    let deadline = INIT_TS + 700;
    create_default(&mut fund, deadline, ONE_EGLD);

    let r = fund.finalize(1, deadline + 1);
    assert!(r.is_ok());

    let e = fund.claim(1, deadline + 1, STRANGER).unwrap_err();
    assert_eq!(e.message(), "Only recipient can claim");

    let e = fund.claim(1, deadline + 1, RECIPIENT).unwrap_err();
    assert_eq!(e.message(), "Cooldown not reached");

    let eff = fund.claim(1, deadline + 1 + 86_400, RECIPIENT).unwrap();
    assert_eq!(eff.transfer, Some(Transfer { id: 1, to: RECIPIENT, amount: ONE_EGLD }));

    let c = fund.get_commitment(1).unwrap();
    assert_eq!(c.status, Status::Claimed);

    let e = fund.claim(1, deadline + 1 + 86_400, RECIPIENT).unwrap_err();
    assert_eq!(e.message(), "Commitment is not failed");
}

#[test]
fn cancel_only_creator_before_deadline() {
    let mut fund = setup();
    let deadline = INIT_TS + 700;
    create_default(&mut fund, deadline, ONE_EGLD);

    let e = fund.cancel(1, INIT_TS, STRANGER).unwrap_err();
    assert_eq!(e.message(), "Only creator can cancel");

    let eff = fund.cancel(1, INIT_TS, CREATOR).unwrap();
    assert_eq!(eff.transfer, Some(Transfer { id: 1, to: CREATOR, amount: ONE_EGLD }));

    let c = fund.get_commitment(1).unwrap();
    assert_eq!(c.status, Status::Refunded);
    assert_eq!(c.finalized_at, INIT_TS);
}

#[test]
fn cancel_after_deadline_reverts() {
    let mut fund = setup();
    let deadline = INIT_TS + 700;
    create_default(&mut fund, deadline, ONE_EGLD);

    let e = fund.cancel(1, deadline, CREATOR).unwrap_err();
    assert_eq!(e.message(), "Deadline already reached");
}

#[test]
fn view_pagination_and_batch() {
    let mut fund = setup();

    for i in 0..3u64 {
        create_default(&mut fund, INIT_TS + 1_000 + i, ONE_EGLD);
    }

    assert_eq!(fund.get_total_ids(), 3u64);

    let ids = fund.get_ids_page(1, 2);
    assert_eq!(ids, vec![2u64, 3u64]);

    let list = fund.get_commitments_batch(&vec![1u64, 3u64]);
    assert_eq!(list.len(), 2usize);
    assert_eq!(list[0].id, 1u64);
    assert_eq!(list[1].id, 3u64);
}
