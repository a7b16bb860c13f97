//! The registry's laws: what holds across any sequence of operations,
//! proved over the transition relation of `transitions`.

use vstd::prelude::*;
use crate::commitment::{commitment_wf, AccountId, CommitmentModel};
use crate::effects::Transfer;
use crate::errors::FundError;
use crate::transitions::{
    commitments_wf, finalize_err, has_id, step_err, step_state, step_transfer, Op,
};

verus! {

/// Uniqueness and monotonicity of identifiers: in a well-formed registry the
/// record at position `i` carries id `i + 1`, so the ids of the commitments,
/// in creation order, are exactly 1, 2, 3, ... — strictly increasing from 1,
/// with no repeats.
pub proof fn lemma_ids_strictly_increasing(s: Seq<CommitmentModel>)
    requires
        commitments_wf(s),
    ensures
        forall|i: int| 0 <= i < s.len() ==> (#[trigger] s[i]).id == i + 1,
        forall|i: int, j: int|
            #![trigger s[i].id, s[j].id]
            0 <= i < j < s.len() ==> s[i].id < s[j].id,
{
    assert forall|i: int, j: int| 0 <= i < j < s.len() implies s[i].id < s[j].id by {
        assert(s[i].id == i + 1 && commitment_wf(s[i]));
        assert(s[j].id == j + 1 && commitment_wf(s[j]));
    }
}

/// A successful creation allocates exactly the next id: it appends one
/// record whose id is one more than the count of commitments ever created,
/// greater than every existing id, and 1 on the very first creation.
/// A rejected creation leaves the state unchanged, so across any sequence of
/// successful creations the resulting ids are 1, 2, 3, ...
pub proof fn lemma_create_allocates_next_id(
    s: Seq<CommitmentModel>,
    op: Op,
    now: u64,
    caller: AccountId,
)
    requires
        commitments_wf(s),
        s.len() + 1 <= u64::MAX,
        op is Create,
        step_err(s, op, now, caller) is None,
    ensures
        step_state(s, op, now, caller).len() == s.len() + 1,
        step_state(s, op, now, caller) == s.push(step_state(s, op, now, caller).last()),
        step_state(s, op, now, caller).last().id == s.len() + 1,
        forall|i: int|
            0 <= i < s.len() ==> (#[trigger] s[i]).id < step_state(s, op, now, caller).last().id,
        s.len() == 0 ==> step_state(s, op, now, caller).last().id == 1,
{
    match op {
        Op::Create { title, recipient, deadline, cooldown_seconds_opt, amount } => {
            let s1 = step_state(s, op, now, caller);
            assert(s1 == s.push(s1.last()));
            assert forall|i: int| 0 <= i < s.len() implies (#[trigger] s[i]).id < s1.last().id by {
                assert(s[i].id == i + 1 && commitment_wf(s[i]));
            }
        },
        _ => {},
    }
}

/// Exactly-once payout, first half: a transfer is instructed only by the
/// transition that moves its commitment into REFUNDED or CLAIMED. The
/// commitment existed, was not yet in a terminal state, and the transfer
/// carries its full amount, to its creator or its recipient.
pub proof fn lemma_transfer_only_on_terminal_transition(
    s: Seq<CommitmentModel>,
    op: Op,
    now: u64,
    caller: AccountId,
    t: Transfer,
)
    requires
        step_transfer(s, op, now, caller) == Some(t),
    ensures
        has_id(s, t.id),
        !(s[t.id - 1].status is Refunded || s[t.id - 1].status is Claimed),
        step_state(s, op, now, caller).len() == s.len(),
        step_state(s, op, now, caller)[t.id - 1].status is Refunded || step_state(
            s,
            op,
            now,
            caller,
        )[t.id - 1].status is Claimed,
        t.amount == s[t.id - 1].amount,
        t.to == s[t.id - 1].creator || t.to == s[t.id - 1].recipient,
{
}

/// Exactly-once payout, second half: once a commitment's status is REFUNDED
/// or CLAIMED, no operation ever instructs a transfer for it again.
pub proof fn lemma_no_transfer_after_terminal(
    s: Seq<CommitmentModel>,
    op: Op,
    now: u64,
    caller: AccountId,
    id: u64,
)
    requires
        has_id(s, id),
        s[id - 1].status is Refunded || s[id - 1].status is Claimed,
    ensures
        step_transfer(s, op, now, caller) matches Some(t) ==> t.id != id,
{
}

/// Exactly-once payout, end to end: an operation that pays commitment
/// `t1.id` leaves it in a terminal state, so whatever operation comes next
/// never pays that commitment again — and by induction on
/// `lemma_no_transfer_after_terminal` and `lemma_terminal_absorbing`,
/// neither does any later operation.
pub proof fn lemma_payout_at_most_once(
    s: Seq<CommitmentModel>,
    op1: Op,
    now1: u64,
    caller1: AccountId,
    op2: Op,
    now2: u64,
    caller2: AccountId,
    t1: Transfer,
)
    requires
        step_transfer(s, op1, now1, caller1) == Some(t1),
    ensures
        step_transfer(step_state(s, op1, now1, caller1), op2, now2, caller2) matches Some(t2)
            ==> t2.id != t1.id,
{
    lemma_transfer_only_on_terminal_transition(s, op1, now1, caller1, t1);
    lemma_no_transfer_after_terminal(
        step_state(s, op1, now1, caller1),
        op2,
        now2,
        caller2,
        t1.id,
    );
}

/// Terminal absorption: once a commitment's status is REFUNDED or CLAIMED,
/// no operation addressed to it is ever accepted again, and no operation —
/// accepted or not, on it or on any other commitment — changes its record.
pub proof fn lemma_terminal_absorbing(
    s: Seq<CommitmentModel>,
    op: Op,
    now: u64,
    caller: AccountId,
    i: int,
)
    requires
        0 <= i < s.len(),
        s[i].status is Refunded || s[i].status is Claimed,
    ensures
        step_state(s, op, now, caller).len() >= s.len(),
        step_state(s, op, now, caller)[i] == s[i],
        (match op {
            Op::Create { .. } => true,
            Op::SubmitProof { id, .. } => id == i + 1 ==> step_err(s, op, now, caller) is Some,
            Op::Finalize { id } => id == i + 1 ==> step_err(s, op, now, caller) is Some,
            Op::Claim { id } => id == i + 1 ==> step_err(s, op, now, caller) is Some,
            Op::Cancel { id } => id == i + 1 ==> step_err(s, op, now, caller) is Some,
        }),
{
}

/// Creation-time fields are immutable: no operation ever changes a stored
/// commitment's id, creator, recipient, amount, deadline, cooldown,
/// creation time or title — transitions touch only the status, the proof
/// fields and `finalized_at`. In particular an id, once allocated, is never
/// reused or reassigned.
pub proof fn lemma_creation_fields_immutable(
    s: Seq<CommitmentModel>,
    op: Op,
    now: u64,
    caller: AccountId,
    i: int,
)
    requires
        0 <= i < s.len(),
    ensures
        step_state(s, op, now, caller).len() >= s.len(),
        step_state(s, op, now, caller)[i].id == s[i].id,
        step_state(s, op, now, caller)[i].creator == s[i].creator,
        step_state(s, op, now, caller)[i].recipient == s[i].recipient,
        step_state(s, op, now, caller)[i].amount == s[i].amount,
        step_state(s, op, now, caller)[i].deadline == s[i].deadline,
        step_state(s, op, now, caller)[i].cooldown_seconds == s[i].cooldown_seconds,
        step_state(s, op, now, caller)[i].created_at == s[i].created_at,
        step_state(s, op, now, caller)[i].title == s[i].title,
{
}

/// Proof immutability: once a proof is recorded (`proof_submitted_at > 0`),
/// no operation alters the stored proof URL, its digest, or the submission
/// time.
pub proof fn lemma_proof_immutable(
    s: Seq<CommitmentModel>,
    op: Op,
    now: u64,
    caller: AccountId,
    i: int,
)
    requires
        0 <= i < s.len(),
        s[i].proof_submitted_at > 0,
    ensures
        step_state(s, op, now, caller).len() >= s.len(),
        step_state(s, op, now, caller)[i].proof_url == s[i].proof_url,
        step_state(s, op, now, caller)[i].proof_hash == s[i].proof_hash,
        step_state(s, op, now, caller)[i].proof_submitted_at == s[i].proof_submitted_at,
{
}

/// Idempotent finalize rejection: with the host clock non-decreasing, a
/// finalize accepted once is rejected the second time, whichever branch the
/// first took, and the rejection is "Commitment cannot be finalized" — an
/// InvalidState rejection.
pub proof fn lemma_finalize_rejected_second_time(
    s: Seq<CommitmentModel>,
    id: u64,
    now1: u64,
    now2: u64,
    caller1: AccountId,
    caller2: AccountId,
)
    requires
        finalize_err(s, id, now1) is None,
        now2 >= now1,
    ensures
        finalize_err(step_state(s, Op::Finalize { id }, now1, caller1), id, now2) == Some(
            FundError::CannotFinalize,
        ),
        FundError::CannotFinalize.kind_spec() is InvalidState,
{
}

} // verus!
