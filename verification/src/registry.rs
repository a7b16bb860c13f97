//! The commitment registry: owns every record, allocates identifiers, and
//! validates and executes every lifecycle transition.

use vstd::prelude::*;
use vstd::pervasive::VecAdditionalExecFns;
use crate::commitment::{
    clone_bytes, AccountId, Commitment, CommitmentModel, Status, DEFAULT_COOLDOWN_SECONDS,
    MAX_PROOF_URL_BYTES, MAX_TITLE_BYTES, MIN_DEADLINE_BUFFER_SECONDS,
};
use crate::digest::sha256;
use crate::effects::{Effects, Event, Transfer};
use crate::errors::FundError;
use crate::transitions::{
    cancel_effects, cancel_err, cancel_post, claim_effects, claim_err, claim_post,
    commitments_wf, create_effects, create_err, create_post, created_commitment, finalize_effects,
    finalize_err, finalize_post, has_id, submit_proof_effects, submit_proof_err,
    submit_proof_post,
};

verus! {

/// The ids of a contiguous page of the registry, by zero-based start offset
/// and limit: empty when the limit is 0 or the offset is beyond the end,
/// clamped at the end otherwise.
pub open spec fn page_spec(s: Seq<CommitmentModel>, start: u64, limit: u64) -> Seq<u64> {
    if limit == 0 || start >= s.len() {
        Seq::empty()
    } else {
        let end = if s.len() < start + limit {
            s.len() as int
        } else {
            start + limit
        };
        Seq::new((end - start) as nat, |k: int| s[start + k].id)
    }
}

/// The records named by `ids`, in the order given, silently skipping any id
/// that does not exist.
pub open spec fn batch_spec(s: Seq<CommitmentModel>, ids: Seq<u64>) -> Seq<CommitmentModel>
    decreases ids.len(),
{
    if ids.len() == 0 {
        Seq::empty()
    } else {
        let prefix = batch_spec(s, ids.drop_last());
        if has_id(s, ids.last()) {
            prefix.push(s[ids.last() - 1])
        } else {
            prefix
        }
    }
}

/// The registry. It holds every commitment ever created (terminal records
/// are kept as history) and the monotonic counter that allocates ids.
pub struct PublicCommitmentFund {
    next_id: u64,
    commitments: Vec<Commitment>,
}

impl View for PublicCommitmentFund {
    type V = Seq<CommitmentModel>;

    closed spec fn view(&self) -> Seq<CommitmentModel> {
        self.commitments@.map_values(|c: Commitment| c@)
    }
}

impl PublicCommitmentFund {
    /// The value the monotonic counter holds: the id the next creation gets.
    pub closed spec fn spec_next_id(&self) -> u64 {
        self.next_id
    }

    /// The registry invariant: ids are contiguous from 1, the counter is one
    /// past the last allocated id, and every record is well-formed.
    pub closed spec fn inv(&self) -> bool {
        &&& self.next_id == self@.len() + 1
        &&& commitments_wf(self@)
    }

    /// What the invariant gives a caller that only sees the view.
    pub proof fn lemma_inv(&self)
        requires
            self.inv(),
        ensures
            commitments_wf(self@),
            self.spec_next_id() == self@.len() + 1,
    {
    }

    /// A fresh registry: no commitments, counter at 1.
    pub fn init() -> (r: PublicCommitmentFund)
        ensures
            r.inv(),
            r@ == Seq::<CommitmentModel>::empty(),
            r.spec_next_id() == 1,
    {
        let r = PublicCommitmentFund { next_id: 1, commitments: Vec::new() };
        proof {
            assert(r@ =~= Seq::<CommitmentModel>::empty());
        }
        r
    }

    /// The id the next creation gets.
    pub fn next_id(&self) -> (r: u64)
        ensures
            r == self.spec_next_id(),
    {
        self.next_id
    }

    /// Create a commitment: validate, then (and only then) allocate the next
    /// id and store the record as ACTIVE. The locked `amount` arrived
    /// atomically with the call; `now` is the host clock and `caller` the
    /// host-authenticated creator, which is never the zero identity.
    pub fn create_commitment(
        &mut self,
        title: Vec<u8>,
        recipient: AccountId,
        deadline: u64,
        cooldown_seconds_opt: Option<u64>,
        amount: u128,
        now: u64,
        caller: AccountId,
    ) -> (r: Result<Effects, FundError>)
        requires
            old(self).inv(),
            caller != 0,
            old(self)@.len() + 1 < u64::MAX,
        ensures
            final(self).inv(),
            (match r {
                Ok(eff) => {
                    &&& create_err(old(self)@, title@, recipient, deadline, cooldown_seconds_opt, amount, now) is None
                    &&& final(self)@ == create_post(old(self)@, title@, recipient, deadline, cooldown_seconds_opt, amount, now, caller)
                    &&& eff@ == create_effects(old(self)@, recipient, deadline, cooldown_seconds_opt, amount, caller)
                },
                Err(e) => {
                    &&& create_err(old(self)@, title@, recipient, deadline, cooldown_seconds_opt, amount, now) == Some(e)
                    &&& final(self)@ == old(self)@
                },
            }),
    {
        if amount == 0 {
            return Err(FundError::AmountMustBePositive);
        }
        if recipient == 0 {
            return Err(FundError::RecipientZero);
        }
        if title.len() > MAX_TITLE_BYTES {
            return Err(FundError::TitleTooLong);
        }
        if now > u64::MAX - MIN_DEADLINE_BUFFER_SECONDS || deadline <= now
            + MIN_DEADLINE_BUFFER_SECONDS {
            return Err(FundError::DeadlineTooSoon);
        }
        let cooldown_seconds: u64 = match cooldown_seconds_opt {
            Some(c) => c,
            None => DEFAULT_COOLDOWN_SECONDS,
        };
        if cooldown_seconds == 0 {
            return Err(FundError::CooldownMustBePositive);
        }

        let id: u64 = self.next_id;
        self.next_id = id + 1;

        let c = Commitment {
            id: id,
            creator: caller,
            recipient: recipient,
            amount: amount,
            deadline: deadline,
            cooldown_seconds: cooldown_seconds,
            created_at: now,
            status: Status::Active,
            title: title,
            proof_url: Vec::new(),
            proof_hash: Vec::new(),
            proof_submitted_at: 0,
            finalized_at: 0,
        };
        self.commitments.push(c);
        proof {
            let s0 = old(self)@;
            let s1 = self@;
            assert(s1 =~= s0.push(c@));
            assert(c@ == created_commitment(s0, title@, recipient, deadline, cooldown_seconds_opt, amount, now, caller));
            assert forall|i: int| 0 <= i < s1.len() implies (#[trigger] s1[i]).id == i + 1
                && crate::commitment::commitment_wf(s1[i]) by {
                if i < s0.len() {
                    assert(s0[i].id == i + 1 && crate::commitment::commitment_wf(s0[i]));
                    assert(s1[i] == s0[i]);
                }
            }
        }
        Ok(
            Effects {
                id: id,
                transfer: None,
                event: Event::CommitmentCreated {
                    id: id,
                    creator: caller,
                    recipient: recipient,
                    amount: amount,
                    deadline: deadline,
                    cooldown: cooldown_seconds,
                },
            },
        )
    }

    /// Submit proof: only the creator, only while ACTIVE, only up to and
    /// including the deadline, and at most once. Records the URL, its
    /// digest and the submission time, and moves the record to COMPLETED.
    pub fn submit_proof(&mut self, id: u64, proof_url: Vec<u8>, now: u64, caller: AccountId) -> (r:
        Result<Effects, FundError>)
        requires
            old(self).inv(),
        ensures
            final(self).inv(),
            (match r {
                Ok(eff) => {
                    &&& submit_proof_err(old(self)@, id, proof_url@, now, caller) is None
                    &&& final(self)@ == submit_proof_post(old(self)@, id, proof_url@, now)
                    &&& eff@ == submit_proof_effects(id, proof_url@)
                },
                Err(e) => {
                    &&& submit_proof_err(old(self)@, id, proof_url@, now, caller) == Some(e)
                    &&& final(self)@ == old(self)@
                },
            }),
    {
        if id == 0 || id > (self.commitments.len() as u64) {
            return Err(FundError::CommitmentNotFound);
        }
        let idx: usize = (id - 1) as usize;
        let c = &self.commitments[idx];
        if caller != c.creator {
            return Err(FundError::OnlyCreatorCanSubmitProof);
        }
        if c.status != Status::Active {
            return Err(FundError::NotActive);
        }
        if proof_url.len() == 0 || proof_url.len() > MAX_PROOF_URL_BYTES {
            return Err(FundError::InvalidProofUrlLength);
        }
        if now > c.deadline {
            return Err(FundError::DeadlinePassed);
        }
        if c.proof_url.len() > 0 || c.proof_submitted_at != 0 {
            return Err(FundError::ProofAlreadySubmitted);
        }

        let hash = sha256(proof_url.as_slice());
        let event_hash = clone_bytes(&hash);
        let new_c = Commitment {
            id: c.id,
            creator: c.creator,
            recipient: c.recipient,
            amount: c.amount,
            deadline: c.deadline,
            cooldown_seconds: c.cooldown_seconds,
            created_at: c.created_at,
            status: Status::Completed,
            title: clone_bytes(&c.title),
            proof_url: proof_url,
            proof_hash: hash,
            proof_submitted_at: now,
            finalized_at: c.finalized_at,
        };
        let ghost new_m = new_c@;
        self.commitments.set(idx, new_c);
        proof {
            let s0 = old(self)@;
            assert(self@ =~= s0.update(id - 1, new_m));
            let s1 = self@;
            assert(s1 == submit_proof_post(s0, id, proof_url@, now));
            assert forall|i: int| 0 <= i < s1.len() implies (#[trigger] s1[i]).id == i + 1
                && crate::commitment::commitment_wf(s1[i]) by {
                assert(s0[i].id == i + 1 && crate::commitment::commitment_wf(s0[i]));
                if i != idx {
                    assert(s1[i] == s0[i]);
                }
            }
        }
        Ok(
            Effects {
                id: id,
                transfer: None,
                event: Event::ProofSubmitted { id: id, proof_hash: event_hash },
            },
        )
    }

    /// Finalize: any caller, strictly after the deadline, only from ACTIVE
    /// or COMPLETED. COMPLETED becomes REFUNDED with the full amount back to
    /// the creator; ACTIVE becomes FAILED with no transfer.
    pub fn finalize(&mut self, id: u64, now: u64) -> (r: Result<Effects, FundError>)
        requires
            old(self).inv(),
        ensures
            final(self).inv(),
            (match r {
                Ok(eff) => {
                    &&& finalize_err(old(self)@, id, now) is None
                    &&& final(self)@ == finalize_post(old(self)@, id, now)
                    &&& eff@ == finalize_effects(old(self)@, id)
                },
                Err(e) => {
                    &&& finalize_err(old(self)@, id, now) == Some(e)
                    &&& final(self)@ == old(self)@
                },
            }),
    {
        if id == 0 || id > (self.commitments.len() as u64) {
            return Err(FundError::CommitmentNotFound);
        }
        let idx: usize = (id - 1) as usize;
        let c = &self.commitments[idx];
        if now <= c.deadline {
            return Err(FundError::DeadlineNotReached);
        }
        let completed = c.status == Status::Completed;
        if !(c.status == Status::Active || completed) {
            return Err(FundError::CannotFinalize);
        }

        let transfer = if completed {
            Some(Transfer { id: id, to: c.creator, amount: c.amount })
        } else {
            None
        };
        let event = if completed {
            Event::Refunded { id: id }
        } else {
            Event::FailedFinalized { id: id }
        };
        let new_c = Commitment {
            id: c.id,
            creator: c.creator,
            recipient: c.recipient,
            amount: c.amount,
            deadline: c.deadline,
            cooldown_seconds: c.cooldown_seconds,
            created_at: c.created_at,
            status: if completed {
                Status::Refunded
            } else {
                Status::Failed
            },
            title: clone_bytes(&c.title),
            proof_url: clone_bytes(&c.proof_url),
            proof_hash: clone_bytes(&c.proof_hash),
            proof_submitted_at: c.proof_submitted_at,
            finalized_at: now,
        };
        let ghost new_m = new_c@;
        self.commitments.set(idx, new_c);
        proof {
            let s0 = old(self)@;
            assert(self@ =~= s0.update(id - 1, new_m));
            let s1 = self@;
            assert(s1 == finalize_post(s0, id, now));
            assert forall|i: int| 0 <= i < s1.len() implies (#[trigger] s1[i]).id == i + 1
                && crate::commitment::commitment_wf(s1[i]) by {
                assert(s0[i].id == i + 1 && crate::commitment::commitment_wf(s0[i]));
                if i != idx {
                    assert(s1[i] == s0[i]);
                }
            }
        }
        Ok(Effects { id: id, transfer: transfer, event: event })
    }

    /// Claim: only the recipient, only from FAILED, only once the cooldown
    /// after finalization has elapsed. Moves the record to CLAIMED and pays
    /// the full amount to the recipient.
    pub fn claim(&mut self, id: u64, now: u64, caller: AccountId) -> (r: Result<
        Effects,
        FundError,
    >)
        requires
            old(self).inv(),
        ensures
            final(self).inv(),
            (match r {
                Ok(eff) => {
                    &&& claim_err(old(self)@, id, now, caller) is None
                    &&& final(self)@ == claim_post(old(self)@, id)
                    &&& eff@ == claim_effects(old(self)@, id)
                },
                Err(e) => {
                    &&& claim_err(old(self)@, id, now, caller) == Some(e)
                    &&& final(self)@ == old(self)@
                },
            }),
    {
        if id == 0 || id > (self.commitments.len() as u64) {
            return Err(FundError::CommitmentNotFound);
        }
        let idx: usize = (id - 1) as usize;
        let c = &self.commitments[idx];
        if caller != c.recipient {
            return Err(FundError::OnlyRecipientCanClaim);
        }
        if c.status != Status::Failed {
            return Err(FundError::NotFailed);
        }
        if c.finalized_at == 0 {
            return Err(FundError::NotFinalized);
        }
        if now < c.finalized_at || now - c.finalized_at < c.cooldown_seconds {
            return Err(FundError::CooldownNotReached);
        }

        let transfer = Some(Transfer { id: id, to: c.recipient, amount: c.amount });
        let new_c = Commitment {
            id: c.id,
            creator: c.creator,
            recipient: c.recipient,
            amount: c.amount,
            deadline: c.deadline,
            cooldown_seconds: c.cooldown_seconds,
            created_at: c.created_at,
            status: Status::Claimed,
            title: clone_bytes(&c.title),
            proof_url: clone_bytes(&c.proof_url),
            proof_hash: clone_bytes(&c.proof_hash),
            proof_submitted_at: c.proof_submitted_at,
            finalized_at: c.finalized_at,
        };
        let ghost new_m = new_c@;
        self.commitments.set(idx, new_c);
        proof {
            let s0 = old(self)@;
            assert(self@ =~= s0.update(id - 1, new_m));
            let s1 = self@;
            assert(s1 == claim_post(s0, id));
            assert forall|i: int| 0 <= i < s1.len() implies (#[trigger] s1[i]).id == i + 1
                && crate::commitment::commitment_wf(s1[i]) by {
                assert(s0[i].id == i + 1 && crate::commitment::commitment_wf(s0[i]));
                if i != idx {
                    assert(s1[i] == s0[i]);
                }
            }
        }
        Ok(Effects { id: id, transfer: transfer, event: Event::Claimed { id: id } })
    }

    /// Cancel: only the creator, only while ACTIVE, strictly before the
    /// deadline, and only while no proof was submitted. Moves the record to
    /// REFUNDED, sets `finalized_at`, and pays the full amount back to the
    /// creator.
    pub fn cancel(&mut self, id: u64, now: u64, caller: AccountId) -> (r: Result<
        Effects,
        FundError,
    >)
        requires
            old(self).inv(),
        ensures
            final(self).inv(),
            (match r {
                Ok(eff) => {
                    &&& cancel_err(old(self)@, id, now, caller) is None
                    &&& final(self)@ == cancel_post(old(self)@, id, now)
                    &&& eff@ == cancel_effects(old(self)@, id)
                },
                Err(e) => {
                    &&& cancel_err(old(self)@, id, now, caller) == Some(e)
                    &&& final(self)@ == old(self)@
                },
            }),
    {
        if id == 0 || id > (self.commitments.len() as u64) {
            return Err(FundError::CommitmentNotFound);
        }
        let idx: usize = (id - 1) as usize;
        let c = &self.commitments[idx];
        if caller != c.creator {
            return Err(FundError::OnlyCreatorCanCancel);
        }
        if c.status != Status::Active {
            return Err(FundError::NotActive);
        }
        if now >= c.deadline {
            return Err(FundError::DeadlineAlreadyReached);
        }
        if c.proof_submitted_at != 0 {
            return Err(FundError::ProofAlreadySubmitted);
        }

        let transfer = Some(Transfer { id: id, to: c.creator, amount: c.amount });
        let new_c = Commitment {
            id: c.id,
            creator: c.creator,
            recipient: c.recipient,
            amount: c.amount,
            deadline: c.deadline,
            cooldown_seconds: c.cooldown_seconds,
            created_at: c.created_at,
            status: Status::Refunded,
            title: clone_bytes(&c.title),
            proof_url: clone_bytes(&c.proof_url),
            proof_hash: clone_bytes(&c.proof_hash),
            proof_submitted_at: c.proof_submitted_at,
            finalized_at: now,
        };
        let ghost new_m = new_c@;
        self.commitments.set(idx, new_c);
        proof {
            let s0 = old(self)@;
            assert(self@ =~= s0.update(id - 1, new_m));
            let s1 = self@;
            assert(s1 == cancel_post(s0, id, now));
            assert forall|i: int| 0 <= i < s1.len() implies (#[trigger] s1[i]).id == i + 1
                && crate::commitment::commitment_wf(s1[i]) by {
                assert(s0[i].id == i + 1 && crate::commitment::commitment_wf(s0[i]));
                if i != idx {
                    assert(s1[i] == s0[i]);
                }
            }
        }
        Ok(Effects { id: id, transfer: transfer, event: Event::Cancelled { id: id } })
    }

    /// The record with id `id`, or NotFound.
    pub fn get_commitment_or_fail(&self, id: u64) -> (r: Result<Commitment, FundError>)
        ensures
            (match r {
                Ok(c) => has_id(self@, id) && c@ == self@[id - 1],
                Err(e) => !has_id(self@, id) && e == FundError::CommitmentNotFound,
            }),
    {
        if id == 0 || id > (self.commitments.len() as u64) {
            return Err(FundError::CommitmentNotFound);
        }
        let idx: usize = (id - 1) as usize;
        Ok(self.commitments[idx].duplicate())
    }

    /// The record with id `id`, or NotFound. Read-only.
    pub fn get_commitment(&self, id: u64) -> (r: Result<Commitment, FundError>)
        ensures
            (match r {
                Ok(c) => has_id(self@, id) && c@ == self@[id - 1],
                Err(e) => !has_id(self@, id) && e == FundError::CommitmentNotFound,
            }),
    {
        self.get_commitment_or_fail(id)
    }

    /// How many ids were ever allocated. Read-only.
    pub fn get_total_ids(&self) -> (r: u64)
        ensures
            r == self@.len(),
    {
        self.commitments.len() as u64
    }

    /// A contiguous page of ids by zero-based start offset and limit: empty
    /// when the limit is 0 or the offset is beyond the end, clamped at the
    /// end otherwise. Read-only.
    pub fn get_ids_page(&self, start: u64, limit: u64) -> (r: Vec<u64>)
        ensures
            r@ == page_spec(self@, start, limit),
    {
        let mut result: Vec<u64> = Vec::new();
        if limit == 0 {
            proof {
                assert(result@ =~= page_spec(self@, start, limit));
            }
            return result;
        }
        let total: u64 = self.commitments.len() as u64;
        if start >= total {
            proof {
                assert(result@ =~= page_spec(self@, start, limit));
            }
            return result;
        }
        let end: u64 = if limit > total - start {
            total
        } else {
            start + limit
        };
        let mut i: u64 = start;
        while i < end
            invariant
                start <= i <= end,
                end <= total,
                total == self@.len(),
                start < total,
                limit > 0,
                end == (if self@.len() < start + limit {
                    self@.len() as int
                } else {
                    start + limit
                }),
                result@ =~= Seq::new((i - start) as nat, |k: int| self@[start + k].id),
            decreases end - i,
        {
            proof {
                assert(self.commitments.len() == self.commitments@.len());
                assert(self@.len() == self.commitments@.len());
            }
            let idx: usize = i as usize;
            result.push(self.commitments[idx].id);
            proof {
                assert(self@[i as int] == self.commitments@[i as int]@);
                assert(result@.last() == self@[i as int].id);
            }
            i = i + 1;
            proof {
                assert(result@ =~= Seq::new((i - start) as nat, |k: int| self@[start + k].id));
            }
        }
        proof {
            assert(result@ =~= page_spec(self@, start, limit));
        }
        result
    }

    /// The records named by `ids`, in the order given, silently skipping any
    /// id that does not exist. Read-only.
    pub fn get_commitments_batch(&self, ids: &Vec<u64>) -> (r: Vec<Commitment>)
        ensures
            r@.map_values(|c: Commitment| c@) == batch_spec(self@, ids@),
    {
        let mut result: Vec<Commitment> = Vec::new();
        proof {
            assert(result@.map_values(|c: Commitment| c@) =~= batch_spec(self@, ids@.take(0)));
        }
        let mut i: usize = 0;
        while i < ids.len()
            invariant
                i <= ids@.len(),
                result@.map_values(|c: Commitment| c@) == batch_spec(self@, ids@.take(i as int)),
            decreases ids@.len() - i,
        {
            let id = ids[i];
            if id >= 1 && id <= (self.commitments.len() as u64) {
                let idx: usize = (id - 1) as usize;
                result.push(self.commitments[idx].duplicate());
            }
            i = i + 1;
            proof {
                let taken = ids@.take(i as int);
                assert(taken.drop_last() =~= ids@.take(i as int - 1));
                assert(taken.last() == ids@[i - 1]);
                assert(result@.map_values(|c: Commitment| c@) =~= batch_spec(self@, taken));
            }
        }
        proof {
            assert(ids@.take(ids@.len() as int) =~= ids@);
        }
        result
    }
}

} // verus!
