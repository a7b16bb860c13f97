//! Scenario and edge-case coverage: the happy refund path, timeout and
//! claim, cancellation windows, pagination and batch lookup, the proof
//! digest, and the error taxonomy.

use public_commitment_fund::commitment::Status;
use public_commitment_fund::effects::{Event, Transfer};
use public_commitment_fund::errors::{ErrorKind, FundError};
use public_commitment_fund::registry::PublicCommitmentFund;

const NOW: u64 = 1_000;
const ONE_EGLD: u128 = 1_000_000_000_000_000_000;
const CREATOR: u64 = 7;
const RECIPIENT: u64 = 8;
const STRANGER: u64 = 9;

fn fund_with_one(deadline: u64) -> PublicCommitmentFund {
    let mut fund = PublicCommitmentFund::init();
    let r = fund.create_commitment(
        b"Deliver artwork".to_vec(),
        RECIPIENT,
        deadline,
        None,
        ONE_EGLD,
        NOW,
        CREATOR,
    );
    assert!(r.is_ok());
    fund
}

#[test]
fn happy_path_refund() {
    let mut fund = fund_with_one(NOW + 700);

    let eff = fund
        .submit_proof(1, b"https://example.com/proof".to_vec(), NOW + 700, CREATOR)
        .unwrap();
    assert!(eff.transfer.is_none());
    match eff.event {
        Event::ProofSubmitted { id, proof_hash } => {
            assert_eq!(id, 1u64);
            assert_eq!(proof_hash.len(), 32usize);
        }
        _ => panic!("expected a ProofSubmitted event"),
    }
    let c = fund.get_commitment(1).unwrap();
    assert_eq!(c.status, Status::Completed);
    assert_eq!(c.proof_hash.len(), 32usize);

    let eff = fund.finalize(1, NOW + 701).unwrap();
    assert_eq!(eff.transfer, Some(Transfer { id: 1, to: CREATOR, amount: ONE_EGLD }));
    let c = fund.get_commitment(1).unwrap();
    assert_eq!(c.status, Status::Refunded);
    assert_eq!(c.finalized_at, NOW + 701);

    // A second finalize is rejected on this branch too, so the transfer can
    // never be instructed twice.
    let e = fund.finalize(1, NOW + 702).unwrap_err();
    assert_eq!(e, FundError::CannotFinalize);
    assert_eq!(e.kind(), ErrorKind::InvalidState);
}

#[test]
fn timeout_then_claim_after_cooldown() {
    let mut fund = fund_with_one(NOW + 700);

    // No proof submitted; any caller may finalize once the deadline passes.
    let eff = fund.finalize(1, NOW + 701).unwrap();
    assert!(eff.transfer.is_none());
    match eff.event {
        Event::FailedFinalized { id } => assert_eq!(id, 1u64),
        _ => panic!("expected a FailedFinalized event"),
    }
    assert_eq!(fund.get_commitment(1).unwrap().status, Status::Failed);

    // Cooldown (the default, 86400 s) not reached yet.
    let e = fund.claim(1, NOW + 701, RECIPIENT).unwrap_err();
    assert_eq!(e, FundError::CooldownNotReached);
    assert_eq!(e.kind(), ErrorKind::TimingViolation);

    // Cooldown elapsed: the recipient claims the full amount.
    let eff = fund.claim(1, NOW + 701 + 86_400, RECIPIENT).unwrap();
    assert_eq!(eff.transfer, Some(Transfer { id: 1, to: RECIPIENT, amount: ONE_EGLD }));
    match eff.event {
        Event::Claimed { id } => assert_eq!(id, 1u64),
        _ => panic!("expected a Claimed event"),
    }
    assert_eq!(fund.get_commitment(1).unwrap().status, Status::Claimed);

    // A further claim is an invalid-state rejection.
    let e = fund.claim(1, NOW + 701 + 2 * 86_400, RECIPIENT).unwrap_err();
    assert_eq!(e, FundError::NotFailed);
    assert_eq!(e.kind(), ErrorKind::InvalidState);
}

#[test]
fn cancel_window_is_exclusive_of_the_deadline() {
    let mut fund = fund_with_one(NOW + 700);

    // Cancel at the deadline instant is rejected.
    let e = fund.cancel(1, NOW + 700, CREATOR).unwrap_err();
    assert_eq!(e, FundError::DeadlineAlreadyReached);
    assert_eq!(e.kind(), ErrorKind::TimingViolation);

    // Cancel strictly before the deadline refunds the creator at once.
    let eff = fund.cancel(1, NOW, CREATOR).unwrap();
    assert_eq!(eff.transfer, Some(Transfer { id: 1, to: CREATOR, amount: ONE_EGLD }));
    match eff.event {
        Event::Cancelled { id } => assert_eq!(id, 1u64),
        _ => panic!("expected a Cancelled event"),
    }
    let c = fund.get_commitment(1).unwrap();
    assert_eq!(c.status, Status::Refunded);
    assert_eq!(c.finalized_at, NOW);
}

#[test]
fn pagination_and_batch_skip_missing_ids() {
    let mut fund = PublicCommitmentFund::init();
    for i in 0..3u64 {
        let r = fund.create_commitment(
            b"One of three".to_vec(),
            RECIPIENT,
            NOW + 1_000 + i,
            None,
            ONE_EGLD,
            NOW,
            CREATOR,
        );
        assert!(r.is_ok());
    }

    // Second and third ids, in creation order.
    assert_eq!(fund.get_ids_page(1, 2), vec![2u64, 3u64]);
    // Limit 0 and out-of-range offsets give empty pages; the end is clamped.
    assert_eq!(fund.get_ids_page(0, 0), Vec::<u64>::new());
    assert_eq!(fund.get_ids_page(3, 5), Vec::<u64>::new());
    assert_eq!(fund.get_ids_page(2, 100), vec![3u64]);

    // A nonexistent id is silently skipped, not an error.
    let list = fund.get_commitments_batch(&vec![1u64, 99u64, 3u64]);
    assert_eq!(list.len(), 2usize);
    assert_eq!(list[0].id, 1u64);
    assert_eq!(list[1].id, 3u64);
}

#[test]
fn proof_hash_is_the_sha256_of_the_url() {
    let mut fund = fund_with_one(NOW + 700);

    let eff = fund.submit_proof(1, b"abc".to_vec(), NOW + 1, CREATOR).unwrap();
    let expected: Vec<u8> = vec![
        0xba, 0x78, 0x16, 0xbf, 0x8f, 0x01, 0xcf, 0xea, 0x41, 0x41, 0x40, 0xde, 0x5d, 0xae, 0x22,
        0x23, 0xb0, 0x03, 0x61, 0xa3, 0x96, 0x17, 0x7a, 0x9c, 0xb4, 0x10, 0xff, 0x61, 0xf2, 0x00,
        0x15, 0xad,
    ];
    match eff.event {
        Event::ProofSubmitted { id: _, proof_hash } => assert_eq!(proof_hash, expected),
        _ => panic!("expected a ProofSubmitted event"),
    }
    let c = fund.get_commitment(1).unwrap();
    assert_eq!(c.proof_url, b"abc".to_vec());
    assert_eq!(c.proof_hash, expected);
    assert_eq!(c.proof_submitted_at, NOW + 1);
}

#[test]
fn creation_edges_and_counter_behaviour() {
    let mut fund = PublicCommitmentFund::init();

    // A rejected creation never advances the counter.
    let e = fund
        .create_commitment(b"T".to_vec(), RECIPIENT, NOW + 1_000, Some(0), ONE_EGLD, NOW, CREATOR)
        .unwrap_err();
    assert_eq!(e, FundError::CooldownMustBePositive);
    assert_eq!(e.message(), "Cooldown must be > 0");
    assert_eq!(fund.next_id(), 1u64);

    // Deadline exactly one past the buffer is accepted; ids start at 1.
    let eff = fund
        .create_commitment(vec![b'y'; 64], RECIPIENT, NOW + 301, Some(5), 1, NOW, CREATOR)
        .unwrap();
    assert_eq!(eff.id, 1u64);
    match eff.event {
        Event::CommitmentCreated { id, creator, recipient, amount, deadline, cooldown } => {
            assert_eq!(id, 1u64);
            assert_eq!(creator, CREATOR);
            assert_eq!(recipient, RECIPIENT);
            assert_eq!(amount, 1u128);
            assert_eq!(deadline, NOW + 301);
            assert_eq!(cooldown, 5u64);
        }
        _ => panic!("expected a CommitmentCreated event"),
    }
    assert_eq!(fund.get_commitment(1).unwrap().cooldown_seconds, 5u64);
    assert_eq!(fund.next_id(), 2u64);
}

#[test]
fn proof_url_length_bounds() {
    let mut fund = fund_with_one(NOW + 700);

    let e = fund.submit_proof(1, Vec::new(), NOW, CREATOR).unwrap_err();
    assert_eq!(e, FundError::InvalidProofUrlLength);
    assert_eq!(e.kind(), ErrorKind::InvalidArgument);

    let e = fund.submit_proof(1, vec![b'u'; 513], NOW, CREATOR).unwrap_err();
    assert_eq!(e, FundError::InvalidProofUrlLength);

    // Exactly 512 bytes is accepted.
    let r = fund.submit_proof(1, vec![b'u'; 512], NOW, CREATOR);
    assert!(r.is_ok());
}

#[test]
fn missing_commitment_is_not_found() {
    let mut fund = PublicCommitmentFund::init();
    let e = fund.get_commitment(1).unwrap_err();
    assert_eq!(e, FundError::CommitmentNotFound);
    assert_eq!(e.kind(), ErrorKind::NotFound);
    assert_eq!(e.message(), "Commitment not found");

    let e = fund.submit_proof(5, b"u".to_vec(), NOW, CREATOR).unwrap_err();
    assert_eq!(e, FundError::CommitmentNotFound);
    let e = fund.finalize(0, NOW).unwrap_err();
    assert_eq!(e, FundError::CommitmentNotFound);
    let e = fund.claim(1, NOW, RECIPIENT).unwrap_err();
    assert_eq!(e, FundError::CommitmentNotFound);
    let e = fund.cancel(1, NOW, CREATOR).unwrap_err();
    assert_eq!(e, FundError::CommitmentNotFound);
}

#[test]
fn cancel_rejected_once_proof_submitted() {
    let mut fund = fund_with_one(NOW + 700);
    let r = fund.submit_proof(1, b"https://example.com/p".to_vec(), NOW + 1, CREATOR);
    assert!(r.is_ok());

    // Status is COMPLETED now, so cancel is an invalid-state rejection.
    let e = fund.cancel(1, NOW + 2, CREATOR).unwrap_err();
    assert_eq!(e, FundError::NotActive);
    assert_eq!(e.kind(), ErrorKind::InvalidState);
}

#[test]
fn unauthorized_kinds_are_distinct() {
    let mut fund = fund_with_one(NOW + 700);
    let e = fund.submit_proof(1, b"u".to_vec(), NOW, STRANGER).unwrap_err();
    assert_eq!(e, FundError::OnlyCreatorCanSubmitProof);
    assert_eq!(e.kind(), ErrorKind::Unauthorized);

    let e = fund.cancel(1, NOW, STRANGER).unwrap_err();
    assert_eq!(e, FundError::OnlyCreatorCanCancel);
    assert_eq!(e.kind(), ErrorKind::Unauthorized);

    let r = fund.finalize(1, NOW + 701);
    assert!(r.is_ok());
    let e = fund.claim(1, NOW + 701 + 86_400, STRANGER).unwrap_err();
    assert_eq!(e, FundError::OnlyRecipientCanClaim);
    assert_eq!(e.kind(), ErrorKind::Unauthorized);
}
