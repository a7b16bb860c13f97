//! What a successful operation owes the host: at most one fund transfer,
//! and exactly one event.

use vstd::prelude::*;
use crate::commitment::AccountId;

verus! {

/// An instruction to the host's fund-transfer primitive: move `amount` to
/// `to`, settling commitment `id`. All-or-nothing; issued at most once per
/// commitment.
#[derive(Clone, Copy, PartialEq, Eq, Structural, Debug)]
pub struct Transfer {
    pub id: u64,
    pub to: AccountId,
    pub amount: u128,
}

/// The notification owed to the event sink after a successful transition,
/// emitted exactly once, after the state is durably updated.
#[derive(Debug)]
pub enum Event {
    CommitmentCreated {
        id: u64,
        creator: AccountId,
        recipient: AccountId,
        amount: u128,
        deadline: u64,
        cooldown: u64,
    },
    ProofSubmitted { id: u64, proof_hash: Vec<u8> },
    FailedFinalized { id: u64 },
    Refunded { id: u64 },
    Claimed { id: u64 },
    Cancelled { id: u64 },
}

/// Mathematical image of an event.
pub enum EventModel {
    CommitmentCreated {
        id: u64,
        creator: AccountId,
        recipient: AccountId,
        amount: u128,
        deadline: u64,
        cooldown: u64,
    },
    ProofSubmitted { id: u64, proof_hash: Seq<u8> },
    FailedFinalized { id: u64 },
    Refunded { id: u64 },
    Claimed { id: u64 },
    Cancelled { id: u64 },
}

impl View for Event {
    type V = EventModel;

    open spec fn view(&self) -> EventModel {
        match self {
            Event::CommitmentCreated { id, creator, recipient, amount, deadline, cooldown } => (
            EventModel::CommitmentCreated {
                id: *id,
                creator: *creator,
                recipient: *recipient,
                amount: *amount,
                deadline: *deadline,
                cooldown: *cooldown,
            }),
            Event::ProofSubmitted { id, proof_hash } => (EventModel::ProofSubmitted {
                id: *id,
                proof_hash: proof_hash@,
            }),
            Event::FailedFinalized { id } => EventModel::FailedFinalized { id: *id },
            Event::Refunded { id } => EventModel::Refunded { id: *id },
            Event::Claimed { id } => EventModel::Claimed { id: *id },
            Event::Cancelled { id } => EventModel::Cancelled { id: *id },
        }
    }
}

/// Everything a successful operation hands back to the host: the commitment
/// acted on, the transfer to perform (if the transition pays out), and the
/// event to emit.
#[derive(Debug)]
pub struct Effects {
    pub id: u64,
    pub transfer: Option<Transfer>,
    pub event: Event,
}

/// Mathematical image of an operation's effects.
pub struct EffectsModel {
    pub id: u64,
    pub transfer: Option<Transfer>,
    pub event: EventModel,
}

impl View for Effects {
    type V = EffectsModel;

    open spec fn view(&self) -> EffectsModel {
        EffectsModel { id: self.id, transfer: self.transfer, event: self.event@ }
    }
}

} // verus!
