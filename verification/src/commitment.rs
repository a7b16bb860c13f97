//! The commitment record: the sole entity of the registry.

use vstd::prelude::*;
use crate::digest::sha256_of;

verus! {

/// Smallest required gap, in seconds, between creation time and deadline.
pub const MIN_DEADLINE_BUFFER_SECONDS: u64 = 300;

/// Cooldown, in seconds, applied when the creator does not pick one.
pub const DEFAULT_COOLDOWN_SECONDS: u64 = 86400;

/// Longest accepted title, in bytes.
pub const MAX_TITLE_BYTES: usize = 64;

/// Longest accepted proof URL, in bytes.
pub const MAX_PROOF_URL_BYTES: usize = 512;

/// Length of a proof digest, in bytes.
pub const PROOF_HASH_BYTES: usize = 32;

/// An opaque account identifier of the host ledger. The value 0 is the
/// reserved zero identity, which never owns or receives a commitment.
pub type AccountId = u64;

/// Lifecycle state of a commitment.
#[derive(Clone, Copy, PartialEq, Eq, Structural, Debug)]
pub enum Status {
    /// Funds locked, proof still possible.
    Active,
    /// Proof submitted before the deadline; awaiting finalization.
    Completed,
    /// Deadline passed without proof; the recipient may claim after the cooldown.
    Failed,
    /// Funds returned to the creator (proof honoured, or cancelled in time).
    Refunded,
    /// Funds claimed by the recipient.
    Claimed,
}

/// One escrow record. Owned exclusively by the registry; mutated only
/// through the registry's transitions, never deleted.
#[derive(Debug)]
pub struct Commitment {
    pub id: u64,
    pub creator: AccountId,
    pub recipient: AccountId,
    pub amount: u128,
    pub deadline: u64,
    pub cooldown_seconds: u64,
    pub created_at: u64,
    pub status: Status,
    pub title: Vec<u8>,
    pub proof_url: Vec<u8>,
    pub proof_hash: Vec<u8>,
    pub proof_submitted_at: u64,
    pub finalized_at: u64,
}

/// Mathematical image of a commitment record.
pub struct CommitmentModel {
    pub id: u64,
    pub creator: AccountId,
    pub recipient: AccountId,
    pub amount: u128,
    pub deadline: u64,
    pub cooldown_seconds: u64,
    pub created_at: u64,
    pub status: Status,
    pub title: Seq<u8>,
    pub proof_url: Seq<u8>,
    pub proof_hash: Seq<u8>,
    pub proof_submitted_at: u64,
    pub finalized_at: u64,
}

impl View for Commitment {
    type V = CommitmentModel;

    open spec fn view(&self) -> CommitmentModel {
        CommitmentModel {
            id: self.id,
            creator: self.creator,
            recipient: self.recipient,
            amount: self.amount,
            deadline: self.deadline,
            cooldown_seconds: self.cooldown_seconds,
            created_at: self.created_at,
            status: self.status,
            title: self.title@,
            proof_url: self.proof_url@,
            proof_hash: self.proof_hash@,
            proof_submitted_at: self.proof_submitted_at,
            finalized_at: self.finalized_at,
        }
    }
}

/// Well-formedness of a single record: what holds of every commitment at
/// every observable point of its lifecycle.
pub open spec fn commitment_wf(c: CommitmentModel) -> bool {
    &&& c.creator != 0
    &&& c.recipient != 0
    &&& c.amount > 0
    &&& c.deadline > c.created_at + MIN_DEADLINE_BUFFER_SECONDS
    &&& c.cooldown_seconds > 0
    &&& c.title.len() <= MAX_TITLE_BYTES
    &&& c.proof_url.len() <= MAX_PROOF_URL_BYTES
    &&& (c.proof_submitted_at > 0 ==> c.proof_url.len() > 0)
    &&& (c.proof_url.len() > 0 ==> {
        &&& c.proof_hash == sha256_of(c.proof_url)
        &&& c.proof_hash.len() == PROOF_HASH_BYTES
        &&& c.proof_submitted_at <= c.deadline
    })
    &&& (c.proof_url.len() == 0 ==> c.proof_hash.len() == 0 && c.proof_submitted_at == 0)
    &&& (c.finalized_at > 0 ==> (c.status is Refunded || c.status is Failed || c.status is Claimed))
    &&& (c.status is Active ==> c.proof_url.len() == 0 && c.finalized_at == 0)
    &&& (c.status is Completed ==> c.proof_url.len() > 0 && c.finalized_at == 0)
    &&& (c.status is Failed ==> c.proof_url.len() == 0 && c.finalized_at > c.deadline)
    &&& (c.status is Claimed ==> c.proof_url.len() == 0 && c.finalized_at > c.deadline)
}

impl Commitment {
    /// An owned copy of the record, equal to it in every field.
    pub fn duplicate(&self) -> (r: Commitment)
        ensures
            r@ == self@,
    {
        Commitment {
            id: self.id,
            creator: self.creator,
            recipient: self.recipient,
            amount: self.amount,
            deadline: self.deadline,
            cooldown_seconds: self.cooldown_seconds,
            created_at: self.created_at,
            status: self.status,
            title: clone_bytes(&self.title),
            proof_url: clone_bytes(&self.proof_url),
            proof_hash: clone_bytes(&self.proof_hash),
            proof_submitted_at: self.proof_submitted_at,
            finalized_at: self.finalized_at,
        }
    }
}

/// A byte-for-byte copy of a byte vector.
pub(crate) fn clone_bytes(v: &Vec<u8>) -> (r: Vec<u8>)
    ensures
        r@ == v@,
{
    let r = v.clone();
    proof {
        assert forall|i: int| 0 <= i < v@.len() implies r@[i] == v@[i] by {
            assert(cloned::<u8>(v@[i], r@[i]));
        }
        assert(r@ =~= v@);
    }
    r
}

} // verus!
