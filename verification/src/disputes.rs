//! Standalone dispute records: opening one dispute per payment, gathering
//! evidence from its two parties, and resolving it.
use vstd::prelude::*;

use crate::errors::Refusal;
use crate::types::{Account, Digest};

verus! {

pub type PaymentId = u64;

pub type DisputeId = u64;

#[derive(Clone, Copy, Debug, PartialEq, Eq, Structural)]
pub enum DisputeStatus {
    Open,
    EvidenceSubmitted,
    Resolved,
}

#[derive(Clone, Copy, Debug, PartialEq, Eq)]
pub struct Dispute {
    pub id: DisputeId,
    pub payment_id: PaymentId,
    pub opened_by: Account,
    pub respondent: Account,
    pub evidence_hash: Digest,
    pub status: DisputeStatus,
    pub slash_amount: i128,
    pub winner: Option<Account>,
}

/// The dispute contract's instance state.
#[derive(Clone, Copy, Debug, PartialEq, Eq)]
pub struct DisputesConfig {
    pub admin: Account,
    pub registry: Account,
    pub payments: Account,
    pub treasury: Account,
    pub next_id: DisputeId,
}

impl Dispute {
    /// The two parties of a dispute may submit evidence.
    pub open spec fn has_party(self, actor: Account) -> bool {
        actor == self.opened_by || actor == self.respondent
    }

    pub fn is_party(&self, actor: &Account) -> (r: bool)
        ensures
            r == self.has_party(*actor),
    {
        actor.same_as(&self.opened_by) || actor.same_as(&self.respondent)
    }
}

pub open spec fn disputes_init_outcome(
    has_admin: bool,
    admin: Account,
    registry: Account,
    payments: Account,
    treasury: Account,
) -> Result<DisputesConfig, Refusal> {
    if has_admin {
        Err(Refusal::AlreadyInitialized)
    } else {
        Ok(DisputesConfig { admin, registry, payments, treasury, next_id: 1 })
    }
}

/// Opening a dispute over a payment: refused when the payment already has one;
/// otherwise a new open record under the next id.
pub open spec fn open_outcome(
    config: DisputesConfig,
    payment_entry: Option<DisputeId>,
    payment_id: PaymentId,
    opened_by: Account,
    respondent: Account,
    evidence_hash: Digest,
    slash_amount: i128,
) -> Result<Dispute, Refusal> {
    if payment_entry is Some {
        Err(Refusal::DisputeExists)
    } else if config.next_id == u64::MAX {
        Err(Refusal::ArithmeticOverflow)
    } else {
        Ok(
            Dispute {
                id: config.next_id,
                payment_id,
                opened_by,
                respondent,
                evidence_hash,
                status: DisputeStatus::Open,
                slash_amount,
                winner: None,
            },
        )
    }
}

/// At most one dispute per payment: once a payment's index entry is set, every
/// later opening for it is refused.
pub proof fn law_one_dispute_per_payment(
    config: DisputesConfig,
    later: DisputesConfig,
    payment_id: PaymentId,
    opened_by: Account,
    respondent: Account,
    evidence_hash: Digest,
    slash_amount: i128,
    opened_by2: Account,
    respondent2: Account,
    evidence_hash2: Digest,
    slash_amount2: i128,
)
    requires
        open_outcome(config, None, payment_id, opened_by, respondent, evidence_hash, slash_amount) is Ok,
    ensures
        open_outcome(
            later,
            Some(
                open_outcome(
                    config,
                    None,
                    payment_id,
                    opened_by,
                    respondent,
                    evidence_hash,
                    slash_amount,
                )->Ok_0.id,
            ),
            payment_id,
            opened_by2,
            respondent2,
            evidence_hash2,
            slash_amount2,
        ) == Err::<Dispute, Refusal>(Refusal::DisputeExists),
{
}

/// The dispute contract.
pub struct DisputesContract;

impl DisputesContract {
    /// The initial state, with ids starting at one; refused when an admin is
    /// already stored.
    pub fn init(
        has_admin: bool,
        admin: Account,
        registry: Account,
        payments: Account,
        treasury: Account,
    ) -> (r: Result<DisputesConfig, Refusal>)
        ensures
            r == disputes_init_outcome(has_admin, admin, registry, payments, treasury),
    {
        if has_admin {
            return Err(Refusal::AlreadyInitialized);
        }
        Ok(DisputesConfig { admin, registry, payments, treasury, next_id: 1 })
    }

    /// Opens a dispute over `payment_id`, whose index entry is `payment_entry`.
    /// On success the id counter moves past the new id and the payment's entry
    /// becomes that id; on refusal both are left as they were.
    pub fn open(
        config: &mut DisputesConfig,
        payment_entry: &mut Option<DisputeId>,
        payment_id: PaymentId,
        opened_by: Account,
        respondent: Account,
        evidence_hash: Digest,
        slash_amount: i128,
    ) -> (r: Result<Dispute, Refusal>)
        ensures
            r == open_outcome(
                *old(config),
                *old(payment_entry),
                payment_id,
                opened_by,
                respondent,
                evidence_hash,
                slash_amount,
            ),
            r matches Ok(d) ==> {
                &&& *final(config) == (DisputesConfig {
                    next_id: (old(config).next_id + 1) as u64,
                    ..*old(config)
                })
                &&& *final(payment_entry) == Some(d.id)
            },
            r is Err ==> *final(config) == *old(config) && *final(payment_entry) == *old(
                payment_entry,
            ),
    {
        if payment_entry.is_some() {
            return Err(Refusal::DisputeExists);
        }
        let id = config.next_id;
        if id == u64::MAX {
            return Err(Refusal::ArithmeticOverflow);
        }
        config.next_id = id + 1;
        *payment_entry = Some(id);
        Ok(
            Dispute {
                id,
                payment_id,
                opened_by,
                respondent,
                evidence_hash,
                status: DisputeStatus::Open,
                slash_amount,
                winner: None,
            },
        )
    }

    /// Records a party's evidence; refused for anyone else.
    pub fn submit_evidence(d: &mut Dispute, actor: Account, evidence_hash: Digest) -> (r: Result<
        (),
        Refusal,
    >)
        ensures
            old(d).has_party(actor) ==> r is Ok && *final(d) == (Dispute {
                evidence_hash,
                status: DisputeStatus::EvidenceSubmitted,
                ..*old(d)
            }),
            !old(d).has_party(actor) ==> r == Err::<(), Refusal>(Refusal::NotParty) && *final(d)
                == *old(d),
    {
        if !d.is_party(&actor) {
            return Err(Refusal::NotParty);
        }
        d.evidence_hash = evidence_hash;
        d.status = DisputeStatus::EvidenceSubmitted;
        Ok(())
    }

    /// Resolves a dispute in favour of `winner`; refused once resolved.
    pub fn resolve(d: &mut Dispute, winner: Account) -> (r: Result<(), Refusal>)
        ensures
            old(d).status != DisputeStatus::Resolved ==> r is Ok && *final(d) == (Dispute {
                status: DisputeStatus::Resolved,
                winner: Some(winner),
                ..*old(d)
            }),
            old(d).status == DisputeStatus::Resolved ==> r == Err::<(), Refusal>(
                Refusal::AlreadyResolved,
            ) && *final(d) == *old(d),
    {
        if d.status == DisputeStatus::Resolved {
            return Err(Refusal::AlreadyResolved);
        }
        d.status = DisputeStatus::Resolved;
        d.winner = Some(winner);
        Ok(())
    }
}

} // verus!
