//! The lifecycle state machine, as mathematics.
//!
//! For each operation: the guard that admits it (`*_err`, giving the first
//! violated guard in the order the registry checks them), the state it
//! produces (`*_post`), and the effects it owes the host (`*_effects`).
//! `step_err` / `step_state` / `step_transfer` gather the five operations
//! into one transition relation, over which the registry's laws are stated.

use vstd::prelude::*;
use crate::commitment::{
    AccountId, CommitmentModel, Status, commitment_wf, DEFAULT_COOLDOWN_SECONDS,
    MAX_PROOF_URL_BYTES, MAX_TITLE_BYTES, MIN_DEADLINE_BUFFER_SECONDS,
};
use crate::digest::sha256_of;
use crate::effects::{EffectsModel, EventModel, Transfer};
use crate::errors::FundError;

verus! {

/// One operation against the registry, with its caller-supplied arguments.
/// `now` and the caller's identity come from the host and stand beside the
/// operation in the transition relation.
pub enum Op {
    Create {
        title: Seq<u8>,
        recipient: AccountId,
        deadline: u64,
        cooldown_seconds_opt: Option<u64>,
        amount: u128,
    },
    SubmitProof { id: u64, proof_url: Seq<u8> },
    Finalize { id: u64 },
    Claim { id: u64 },
    Cancel { id: u64 },
}

/// Whether `id` names a stored commitment. Identifiers are contiguous from
/// 1, so the record with id `i` sits at position `i - 1`.
pub open spec fn has_id(s: Seq<CommitmentModel>, id: u64) -> bool {
    1 <= id <= s.len()
}

/// Registry-level well-formedness: the record at position `i` carries id
/// `i + 1` and is itself well-formed.
pub open spec fn commitments_wf(s: Seq<CommitmentModel>) -> bool {
    forall|i: int| 0 <= i < s.len() ==> (#[trigger] s[i]).id == i + 1 && commitment_wf(s[i])
}

/// The cooldown a creation stores: the given one, or the default.
pub open spec fn cooldown_of(cooldown_seconds_opt: Option<u64>) -> u64 {
    match cooldown_seconds_opt {
        Some(c) => c,
        None => DEFAULT_COOLDOWN_SECONDS,
    }
}

/// The first creation guard that fails, or `None` when creation is accepted.
pub open spec fn create_err(
    s: Seq<CommitmentModel>,
    title: Seq<u8>,
    recipient: AccountId,
    deadline: u64,
    cooldown_seconds_opt: Option<u64>,
    amount: u128,
    now: u64,
) -> Option<FundError> {
    if amount == 0 {
        Some(FundError::AmountMustBePositive)
    } else if recipient == 0 {
        Some(FundError::RecipientZero)
    } else if title.len() > MAX_TITLE_BYTES {
        Some(FundError::TitleTooLong)
    } else if deadline <= now + MIN_DEADLINE_BUFFER_SECONDS {
        Some(FundError::DeadlineTooSoon)
    } else if cooldown_of(cooldown_seconds_opt) == 0 {
        Some(FundError::CooldownMustBePositive)
    } else {
        None
    }
}

/// The record an accepted creation stores: the next id, the caller as
/// creator, status ACTIVE, and no proof or finalization yet.
pub open spec fn created_commitment(
    s: Seq<CommitmentModel>,
    title: Seq<u8>,
    recipient: AccountId,
    deadline: u64,
    cooldown_seconds_opt: Option<u64>,
    amount: u128,
    now: u64,
    caller: AccountId,
) -> CommitmentModel {
    CommitmentModel {
        id: (s.len() + 1) as u64,
        creator: caller,
        recipient: recipient,
        amount: amount,
        deadline: deadline,
        cooldown_seconds: cooldown_of(cooldown_seconds_opt),
        created_at: now,
        status: Status::Active,
        title: title,
        proof_url: Seq::empty(),
        proof_hash: Seq::empty(),
        proof_submitted_at: 0,
        finalized_at: 0,
    }
}

/// The state after an accepted creation: the new record appended.
pub open spec fn create_post(
    s: Seq<CommitmentModel>,
    title: Seq<u8>,
    recipient: AccountId,
    deadline: u64,
    cooldown_seconds_opt: Option<u64>,
    amount: u128,
    now: u64,
    caller: AccountId,
) -> Seq<CommitmentModel> {
    s.push(created_commitment(s, title, recipient, deadline, cooldown_seconds_opt, amount, now, caller))
}

/// The effects of an accepted creation: no transfer out (the locked funds
/// arrived with the call), and the creation event.
pub open spec fn create_effects(
    s: Seq<CommitmentModel>,
    recipient: AccountId,
    deadline: u64,
    cooldown_seconds_opt: Option<u64>,
    amount: u128,
    caller: AccountId,
) -> EffectsModel {
    EffectsModel {
        id: (s.len() + 1) as u64,
        transfer: None,
        event: EventModel::CommitmentCreated {
            id: (s.len() + 1) as u64,
            creator: caller,
            recipient: recipient,
            amount: amount,
            deadline: deadline,
            cooldown: cooldown_of(cooldown_seconds_opt),
        },
    }
}

/// The first proof-submission guard that fails, or `None` when accepted.
pub open spec fn submit_proof_err(
    s: Seq<CommitmentModel>,
    id: u64,
    proof_url: Seq<u8>,
    now: u64,
    caller: AccountId,
) -> Option<FundError> {
    if !has_id(s, id) {
        Some(FundError::CommitmentNotFound)
    } else {
        let c = s[id - 1];
        if caller != c.creator {
            Some(FundError::OnlyCreatorCanSubmitProof)
        } else if !(c.status is Active) {
            Some(FundError::NotActive)
        } else if proof_url.len() == 0 || proof_url.len() > MAX_PROOF_URL_BYTES {
            Some(FundError::InvalidProofUrlLength)
        } else if now > c.deadline {
            Some(FundError::DeadlinePassed)
        } else if c.proof_url.len() > 0 || c.proof_submitted_at != 0 {
            Some(FundError::ProofAlreadySubmitted)
        } else {
            None
        }
    }
}

/// The state after an accepted proof submission: the proof URL, its digest
/// and the submission time recorded, status COMPLETED; nothing else moves.
pub open spec fn submit_proof_post(
    s: Seq<CommitmentModel>,
    id: u64,
    proof_url: Seq<u8>,
    now: u64,
) -> Seq<CommitmentModel> {
    let c = s[id - 1];
    s.update(
        id - 1,
        CommitmentModel {
            status: Status::Completed,
            proof_url: proof_url,
            proof_hash: sha256_of(proof_url),
            proof_submitted_at: now,
            ..c
        },
    )
}

/// The effects of an accepted proof submission: no transfer, and the proof
/// event carrying the digest.
pub open spec fn submit_proof_effects(id: u64, proof_url: Seq<u8>) -> EffectsModel {
    EffectsModel {
        id: id,
        transfer: None,
        event: EventModel::ProofSubmitted { id: id, proof_hash: sha256_of(proof_url) },
    }
}

/// The first finalization guard that fails, or `None` when accepted.
/// Any caller may finalize.
pub open spec fn finalize_err(s: Seq<CommitmentModel>, id: u64, now: u64) -> Option<FundError> {
    if !has_id(s, id) {
        Some(FundError::CommitmentNotFound)
    } else {
        let c = s[id - 1];
        if now <= c.deadline {
            Some(FundError::DeadlineNotReached)
        } else if !(c.status is Active || c.status is Completed) {
            Some(FundError::CannotFinalize)
        } else {
            None
        }
    }
}

/// The state after an accepted finalization: COMPLETED becomes REFUNDED,
/// ACTIVE becomes FAILED; `finalized_at` is set to `now` either way.
pub open spec fn finalize_post(s: Seq<CommitmentModel>, id: u64, now: u64) -> Seq<CommitmentModel> {
    let c = s[id - 1];
    if c.status is Completed {
        s.update(id - 1, CommitmentModel { status: Status::Refunded, finalized_at: now, ..c })
    } else {
        s.update(id - 1, CommitmentModel { status: Status::Failed, finalized_at: now, ..c })
    }
}

/// The effects of an accepted finalization: the full amount back to the
/// creator exactly when proof was honoured, and a distinct event per branch.
pub open spec fn finalize_effects(s: Seq<CommitmentModel>, id: u64) -> EffectsModel {
    let c = s[id - 1];
    if c.status is Completed {
        EffectsModel {
            id: id,
            transfer: Some(Transfer { id: id, to: c.creator, amount: c.amount }),
            event: EventModel::Refunded { id: id },
        }
    } else {
        EffectsModel { id: id, transfer: None, event: EventModel::FailedFinalized { id: id } }
    }
}

/// The first claim guard that fails, or `None` when accepted.
pub open spec fn claim_err(
    s: Seq<CommitmentModel>,
    id: u64,
    now: u64,
    caller: AccountId,
) -> Option<FundError> {
    if !has_id(s, id) {
        Some(FundError::CommitmentNotFound)
    } else {
        let c = s[id - 1];
        if caller != c.recipient {
            Some(FundError::OnlyRecipientCanClaim)
        } else if !(c.status is Failed) {
            Some(FundError::NotFailed)
        } else if c.finalized_at == 0 {
            Some(FundError::NotFinalized)
        } else if now < c.finalized_at + c.cooldown_seconds {
            Some(FundError::CooldownNotReached)
        } else {
            None
        }
    }
}

/// The state after an accepted claim: status CLAIMED; nothing else moves.
pub open spec fn claim_post(s: Seq<CommitmentModel>, id: u64) -> Seq<CommitmentModel> {
    let c = s[id - 1];
    s.update(id - 1, CommitmentModel { status: Status::Claimed, ..c })
}

/// The effects of an accepted claim: the full amount to the recipient.
pub open spec fn claim_effects(s: Seq<CommitmentModel>, id: u64) -> EffectsModel {
    let c = s[id - 1];
    EffectsModel {
        id: id,
        transfer: Some(Transfer { id: id, to: c.recipient, amount: c.amount }),
        event: EventModel::Claimed { id: id },
    }
}

/// The first cancellation guard that fails, or `None` when accepted.
pub open spec fn cancel_err(
    s: Seq<CommitmentModel>,
    id: u64,
    now: u64,
    caller: AccountId,
) -> Option<FundError> {
    if !has_id(s, id) {
        Some(FundError::CommitmentNotFound)
    } else {
        let c = s[id - 1];
        if caller != c.creator {
            Some(FundError::OnlyCreatorCanCancel)
        } else if !(c.status is Active) {
            Some(FundError::NotActive)
        } else if now >= c.deadline {
            Some(FundError::DeadlineAlreadyReached)
        } else if c.proof_submitted_at != 0 {
            Some(FundError::ProofAlreadySubmitted)
        } else {
            None
        }
    }
}

/// The state after an accepted cancellation: status REFUNDED and
/// `finalized_at` set to `now`; nothing else moves.
pub open spec fn cancel_post(s: Seq<CommitmentModel>, id: u64, now: u64) -> Seq<CommitmentModel> {
    let c = s[id - 1];
    s.update(id - 1, CommitmentModel { status: Status::Refunded, finalized_at: now, ..c })
}

/// The effects of an accepted cancellation: the full amount back to the
/// creator.
pub open spec fn cancel_effects(s: Seq<CommitmentModel>, id: u64) -> EffectsModel {
    let c = s[id - 1];
    EffectsModel {
        id: id,
        transfer: Some(Transfer { id: id, to: c.creator, amount: c.amount }),
        event: EventModel::Cancelled { id: id },
    }
}

/// The guard of `op`: the first violated guard, or `None` when `op` is
/// accepted in state `s` at time `now` by `caller`.
pub open spec fn step_err(s: Seq<CommitmentModel>, op: Op, now: u64, caller: AccountId) -> Option<
    FundError,
> {
    match op {
        Op::Create { title, recipient, deadline, cooldown_seconds_opt, amount } => create_err(
            s,
            title,
            recipient,
            deadline,
            cooldown_seconds_opt,
            amount,
            now,
        ),
        Op::SubmitProof { id, proof_url } => submit_proof_err(s, id, proof_url, now, caller),
        Op::Finalize { id } => finalize_err(s, id, now),
        Op::Claim { id } => claim_err(s, id, now, caller),
        Op::Cancel { id } => cancel_err(s, id, now, caller),
    }
}

/// The state after `op`: unchanged when a guard fails, else the operation's
/// post-state.
pub open spec fn step_state(s: Seq<CommitmentModel>, op: Op, now: u64, caller: AccountId) -> Seq<
    CommitmentModel,
> {
    if step_err(s, op, now, caller) is Some {
        s
    } else {
        match op {
            Op::Create { title, recipient, deadline, cooldown_seconds_opt, amount } => create_post(
                s,
                title,
                recipient,
                deadline,
                cooldown_seconds_opt,
                amount,
                now,
                caller,
            ),
            Op::SubmitProof { id, proof_url } => submit_proof_post(s, id, proof_url, now),
            Op::Finalize { id } => finalize_post(s, id, now),
            Op::Claim { id } => claim_post(s, id),
            Op::Cancel { id } => cancel_post(s, id, now),
        }
    }
}

/// The transfer `op` instructs, if any: none when a guard fails.
pub open spec fn step_transfer(s: Seq<CommitmentModel>, op: Op, now: u64, caller: AccountId) -> Option<
    Transfer,
> {
    if step_err(s, op, now, caller) is Some {
        None
    } else {
        match op {
            Op::Create { .. } => None,
            Op::SubmitProof { .. } => None,
            Op::Finalize { id } => finalize_effects(s, id).transfer,
            Op::Claim { id } => claim_effects(s, id).transfer,
            Op::Cancel { id } => cancel_effects(s, id).transfer,
        }
    }
}

} // verus!
